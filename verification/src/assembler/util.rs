//! Small helpers shared by the fluent builders.
use vstd::prelude::*;
use crate::spec::attribute::{attribute_name, Attribute};
use crate::spec::constant::{intern_class_spec, intern_spec, step_result, ConstantPool, ConstantView, PoolStep, PoolView};
use crate::spec::error::{Error, Result};

verus! {

/// The pool step of adding an attribute: its name is interned when it has
/// one; a raw attribute leaves the pool as it is.
pub open spec fn attr_step(pool: PoolView, attr: Attribute) -> PoolStep {
    match attribute_name(attr) {
        Some(name) => intern_spec(pool, ConstantView::Utf8(name)),
        None => Ok((pool, 0)),
    }
}

/// Intern the attribute's name into `pool` (if it has one) and push the
/// attribute onto `attrs`. On a full pool nothing is pushed.
pub(crate) fn push_attr(pool: &mut ConstantPool, attrs: &mut Vec<Attribute>, attr: Attribute) -> (r: Result<()>)
    ensures
        match attr_step(old(pool)@, attr) {
            Ok((p, _)) => r is Ok && final(pool)@ == p && final(attrs)@ == old(attrs)@.push(attr),
            Err((p, n)) => final(pool)@ == p && final(attrs)@ == old(attrs)@
                && (r matches Err(Error::TooManyEntries { what, count }) && what@ == "constant pool"@ && count == n),
        },
{
    if let Some(name) = attr.name() {
        let r = pool.intern_utf8(name);
        proof { assert(step_result(pool@, r, intern_spec(old(pool)@, ConstantView::Utf8(name@)))); }
        r?;
    }
    attrs.push(attr);
    Ok(())
}

/// Pool after adding each attribute of `s` in order, or where it overflowed.
pub open spec fn extras_run(s: Seq<Attribute>, pool: PoolView) -> core::result::Result<PoolView, (PoolView, int)>
    decreases s.len(),
{
    if s.len() == 0 {
        Ok(pool)
    } else {
        match extras_run(s.drop_last(), pool) {
            Err(x) => Err(x),
            Ok(p) => match attr_step(p, s.last()) {
                Err(x) => Err(x),
                Ok((p1, _)) => Ok(p1),
            },
        }
    }
}

/// An attribute run: the pool and the attributes so far, or the pool and
/// the entry count at which the pool overflowed.
pub type AttrRun = core::result::Result<(PoolView, Seq<Attribute>), (PoolView, int)>;

/// Extend a run with one attribute built from the index that `step` yields
/// (a step that interns nothing yields the pool unchanged).
pub open spec fn then_attr(run: AttrRun, step: spec_fn(PoolView) -> PoolStep, make: spec_fn(u16) -> Attribute) -> AttrRun {
    match run {
        Err(x) => Err(x),
        Ok((p, attrs)) => match step(p) {
            Err(x) => Err(x),
            Ok((p1, i)) => match attr_step(p1, make(i as u16)) {
                Err(x) => Err(x),
                Ok((p2, _)) => Ok((p2, attrs.push(make(i as u16)))),
            },
        },
    }
}

/// Whether `pool_after` and `r` are the end of `run` as a pool overflow.
pub open spec fn run_failed<T>(run: AttrRun, pool_after: PoolView, r: Result<T>) -> bool {
    run matches Err((p, n)) && pool_after == p
        && (r matches Err(Error::TooManyEntries { what, count }) && what@ == "constant pool"@ && count == n)
}

proof fn lemma_extras_err(s: Seq<Attribute>, pool: PoolView, k: int)
    requires
        0 <= k <= s.len(),
        extras_run(s.take(k), pool) is Err,
    ensures
        extras_run(s, pool) == extras_run(s.take(k), pool),
    decreases s.len() - k,
{
    if k < s.len() {
        assert(s.take(k + 1).drop_last() =~= s.take(k));
        lemma_extras_err(s, pool, k + 1);
    } else {
        assert(s.take(k) =~= s);
    }
}

/// Intern the names of `extra` in order, then append them all to `attrs`;
/// on a full pool nothing is appended.
pub(crate) fn push_attrs(pool: &mut ConstantPool, attrs: &mut Vec<Attribute>, extra: Vec<Attribute>) -> (r: Result<()>)
    ensures
        match extras_run(extra@, old(pool)@) {
            Ok(p) => r is Ok && final(pool)@ == p && final(attrs)@ == old(attrs)@ + extra@,
            Err((p, n)) => final(pool)@ == p && final(attrs)@ == old(attrs)@
                && (r matches Err(Error::TooManyEntries { what, count }) && what@ == "constant pool"@ && count == n),
        },
{
    let mut list = extra;
    let mut i: usize = 0;
    assert(list@.take(0) =~= Seq::<Attribute>::empty());
    while i < list.len()
        invariant
            i <= list@.len(),
            attrs@ == old(attrs)@,
            list@ == extra@,
            extras_run(list@.take(i as int), old(pool)@) == Ok::<PoolView, (PoolView, int)>(pool@),
        decreases list@.len() - i,
    {
        proof {
            assert(list@.take(i + 1).drop_last() =~= list@.take(i as int));
            assert(list@.take(i + 1).last() == list@[i as int]);
        }
        let ghost before = pool@;
        if let Some(name) = list[i].name() {
            let r = pool.intern_utf8(name);
            if let Err(e) = r {
                proof {
                    assert(attr_step(before, list@[i as int]) == intern_spec(before, ConstantView::Utf8(name@)));
                    assert(extras_run(list@.take(i + 1), old(pool)@) is Err);
                    lemma_extras_err(list@, old(pool)@, i + 1);
                }
                return Err(e);
            }
        }
        i += 1;
    }
    assert(list@.take(i as int) =~= extra@);
    let ghost e0 = list@;
    attrs.append(&mut list);
    assert(attrs@ =~= old(attrs)@ + e0);
    Ok(())
}

/// The step of interning a string, as a function of the pool.
pub open spec fn utf8_step(s: Seq<char>) -> spec_fn(PoolView) -> PoolStep {
    |p: PoolView| intern_spec(p, ConstantView::Utf8(s))
}

/// A step that interns nothing.
pub open spec fn no_step() -> spec_fn(PoolView) -> PoolStep {
    |p: PoolView| Ok((p, 0int))
}

/// An optional `Signature` stage.
pub open spec fn signature_stage(run: AttrRun, sig: Option<String>) -> AttrRun {
    match sig {
        Some(s) => then_attr(run, utf8_step(s@), |i: u16| Attribute::Signature { signature_index: i }),
        None => run,
    }
}

/// An optional flag attribute (`Synthetic`, `Deprecated`) stage.
pub open spec fn flag_stage(run: AttrRun, on: bool, a: Attribute) -> AttrRun {
    if on { then_attr(run, no_step(), |i: u16| a) } else { run }
}

/// Pool after interning a class entry for each name of `s` in order.
pub open spec fn classes_run(s: Seq<String>, pool: PoolView) -> core::result::Result<PoolView, (PoolView, int)>
    decreases s.len(),
{
    if s.len() == 0 {
        Ok(pool)
    } else {
        match classes_run(s.drop_last(), pool) {
            Err(x) => Err(x),
            Ok(p) => match intern_class_spec(p, s.last()@) {
                Err(x) => Err(x),
                Ok((p1, _)) => Ok(p1),
            },
        }
    }
}

/// Whether `idx` holds the class index of each name of `s`, interned in
/// order from `pool`.
pub open spec fn classes_ok(s: Seq<String>, pool: PoolView, idx: Seq<u16>) -> bool
    decreases s.len(),
{
    &&& s.len() == idx.len()
    &&& s.len() > 0 ==> {
        &&& classes_ok(s.drop_last(), pool, idx.drop_last())
        &&& classes_run(s.drop_last(), pool) matches Ok(p)
            && intern_class_spec(p, s.last()@) matches Ok((_, i)) && idx.last() == i as u16
    }
}

proof fn lemma_classes_err(s: Seq<String>, pool: PoolView, k: int)
    requires
        0 <= k <= s.len(),
        classes_run(s.take(k), pool) is Err,
    ensures
        classes_run(s, pool) == classes_run(s.take(k), pool),
    decreases s.len() - k,
{
    if k < s.len() {
        assert(s.take(k + 1).drop_last() =~= s.take(k));
        lemma_classes_err(s, pool, k + 1);
    } else {
        assert(s.take(k) =~= s);
    }
}

/// Intern a class entry for each name, in order.
pub(crate) fn intern_class_list(pool: &mut ConstantPool, names: &Vec<String>) -> (r: Result<Vec<u16>>)
    ensures
        match classes_run(names@, old(pool)@) {
            Ok(p) => final(pool)@ == p && (r matches Ok(v) && classes_ok(names@, old(pool)@, v@)),
            Err((p, n)) => final(pool)@ == p
                && (r matches Err(Error::TooManyEntries { what, count }) && what@ == "constant pool"@ && count == n),
        },
{
    let mut out: Vec<u16> = Vec::with_capacity(names.len());
    let mut i: usize = 0;
    assert(names@.take(0) =~= Seq::<String>::empty());
    while i < names.len()
        invariant
            i <= names@.len(),
            classes_run(names@.take(i as int), old(pool)@) == Ok::<PoolView, (PoolView, int)>(pool@),
            classes_ok(names@.take(i as int), old(pool)@, out@),
        decreases names@.len() - i,
    {
        proof {
            assert(names@.take(i + 1).drop_last() =~= names@.take(i as int));
            assert(names@.take(i + 1).last() == names@[i as int]);
        }
        let x = match pool.intern_class(&names[i]) {
            Ok(x) => x,
            Err(e) => {
                proof { lemma_classes_err(names@, old(pool)@, i + 1); }
                return Err(e);
            },
        };
        proof { assert(out@.push(x).drop_last() =~= out@); }
        out.push(x);
        i += 1;
    }
    assert(names@.take(i as int) =~= names@);
    Ok(out)
}

/// A stage that interns a class entry for each name, then the attribute
/// name; nothing for no names.
pub open spec fn class_list_run(names: Seq<String>, p: PoolView, attr_name: Seq<char>) -> core::result::Result<PoolView, (PoolView, int)> {
    if names.len() == 0 {
        Ok(p)
    } else {
        match classes_run(names, p) {
            Err(x) => Err(x),
            Ok(p1) => match intern_spec(p1, ConstantView::Utf8(attr_name)) {
                Err(x) => Err(x),
                Ok((p2, _)) => Ok(p2),
            },
        }
    }
}

} // verus!
