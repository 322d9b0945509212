# crustf

Emit JVM class files and JAR archives from Rust, with the encoders and
builders proved by Verus against their specifications.

## Layout

* `src/spec/`: the class file model (constant pool, attributes, fields,
  methods, instructions, descriptors, access flags), the modified UTF-8
  codec and the binary encoder. Each encoder is specified by a spec
  function over byte sequences; the pool is specified as a sequence of
  entries with its interning laws.
* `src/assembler/`: the fluent `ClassFileBuilder`, `FieldBuilder`,
  `MethodBuilder` and `CodeBuilder`, with label resolution, narrowest
  local-variable encodings, `max_locals` inference and annotation
  resolution, each stated over the pool it fills.
* `src/jar/`: CRC-32, a stored-only ZIP writer, JAR manifests (72-byte line
  folding) and the `JarBuilder`.
* `app/`: the floating-point conveniences (`ldc_float`, `ldc_double`, float
  and double constants and annotation elements), which hand the library
  IEEE 754 bit patterns.
* `tests/`: executable tests against the compiled library.
