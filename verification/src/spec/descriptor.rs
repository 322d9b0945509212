//! Type descriptors.
//!
//! The grammar is parsed into a tree rather than passed through to the pool
//! as opaque strings so that higher level code can validate method shapes
//! before emitting bytecode.
use vstd::prelude::*;
use crate::spec::error::{Error, Result};
use crate::spec::text::{chars_of, debug_char, debug_quoted_char, debug_quoted_str, debug_str, push_char, push_str, string_of};

verus! {

/// Primitive base types.
#[derive(Debug, Clone, Copy, PartialEq, Eq, Hash, Structural)]
pub enum BaseType {
    Byte,
    Char,
    Double,
    Float,
    Int,
    Long,
    Short,
    Boolean,
}

pub open spec fn base_letter(b: BaseType) -> char {
    match b {
        BaseType::Byte => 'B',
        BaseType::Char => 'C',
        BaseType::Double => 'D',
        BaseType::Float => 'F',
        BaseType::Int => 'I',
        BaseType::Long => 'J',
        BaseType::Short => 'S',
        BaseType::Boolean => 'Z',
    }
}

/// Local variable slots a value of the type takes: two for long and double.
pub open spec fn base_slots(b: BaseType) -> u16 {
    if b is Long || b is Double { 2 } else { 1 }
}

/// The base type whose descriptor letter is `c`, if any.
pub open spec fn base_of_letter(c: char) -> Option<BaseType> {
    if c == 'B' {
        Some(BaseType::Byte)
    } else if c == 'C' {
        Some(BaseType::Char)
    } else if c == 'D' {
        Some(BaseType::Double)
    } else if c == 'F' {
        Some(BaseType::Float)
    } else if c == 'I' {
        Some(BaseType::Int)
    } else if c == 'J' {
        Some(BaseType::Long)
    } else if c == 'S' {
        Some(BaseType::Short)
    } else if c == 'Z' {
        Some(BaseType::Boolean)
    } else {
        None
    }
}

impl BaseType {
    pub fn letter(self) -> (c: char)
        ensures
            c == base_letter(self),
    {
        match self {
            BaseType::Byte => 'B',
            BaseType::Char => 'C',
            BaseType::Double => 'D',
            BaseType::Float => 'F',
            BaseType::Int => 'I',
            BaseType::Long => 'J',
            BaseType::Short => 'S',
            BaseType::Boolean => 'Z',
        }
    }

    pub fn slots(self) -> (n: u16)
        ensures
            n == base_slots(self),
    {
        match self {
            BaseType::Long | BaseType::Double => 2,
            _ => 1,
        }
    }

    /// The descriptor letter as a string.
    pub fn to_string(&self) -> (s: String)
        ensures
            s@ == seq![base_letter(*self)],
    {
        let mut s = String::new();
        push_char(&mut s, self.letter());
        s
    }
}

/// Field descriptor.
#[derive(Debug, PartialEq, Eq, Hash)]
pub enum FieldDescriptor {
    Base(BaseType),
    /// `Lclass_name;`: `class_name` is in internal form (slashes).
    Object(String),
    Array(Box<FieldDescriptor>),
}

/// Model of a field descriptor: class names are their characters.
pub enum FieldType {
    Base(BaseType),
    Object(Seq<char>),
    Array(Box<FieldType>),
}

impl View for FieldDescriptor {
    type V = FieldType;

    open spec fn view(&self) -> FieldType
        decreases self,
    {
        match self {
            FieldDescriptor::Base(b) => FieldType::Base(*b),
            FieldDescriptor::Object(n) => FieldType::Object(n@),
            FieldDescriptor::Array(inner) => FieldType::Array(Box::new((**inner).view())),
        }
    }
}

/// Descriptor text of a field type.
pub open spec fn field_chars(t: FieldType) -> Seq<char>
    decreases t,
{
    match t {
        FieldType::Base(b) => seq![base_letter(b)],
        FieldType::Object(n) => seq!['L'] + n + seq![';'],
        FieldType::Array(inner) => seq!['['] + field_chars(*inner),
    }
}

pub open spec fn field_type_slots(t: FieldType) -> u16 {
    match t {
        FieldType::Base(b) => base_slots(b),
        _ => 1,
    }
}

/// Why a descriptor was refused.
pub enum DescriptorError {
    Empty,
    UnterminatedObject,
    UnknownToken(char),
    TrailingField(Seq<char>),
    NoOpenParen,
    TrailingMethod(Seq<char>),
}

/// Message carried by the `Error::Encoding` for each refusal.
pub open spec fn descriptor_message(e: DescriptorError) -> Seq<char> {
    match e {
        DescriptorError::Empty => "empty field descriptor"@,
        DescriptorError::UnterminatedObject => "unterminated 'L' in descriptor"@,
        DescriptorError::UnknownToken(c) => "unknown descriptor token "@ + debug_char(c),
        DescriptorError::TrailingField(rest) => "trailing bytes in field descriptor: "@ + debug_str(rest),
        DescriptorError::NoOpenParen => "method descriptor must start with '('"@,
        DescriptorError::TrailingMethod(rest) => "trailing: "@ + debug_str(rest),
    }
}

/// Whether `r` is the error for the refusal `e`.
pub open spec fn is_descriptor_error<T>(r: Result<T>, e: DescriptorError) -> bool {
    r matches Err(Error::Encoding(m)) && m@ == descriptor_message(e)
}

/// First index at or after `i` that holds `c`.
pub open spec fn find_char(s: Seq<char>, c: char, i: int) -> Option<int>
    decreases s.len() - i,
{
    if i < 0 || i >= s.len() {
        None
    } else if s[i] == c {
        Some(i)
    } else {
        find_char(s, c, i + 1)
    }
}

/// Parse one field descriptor at `i`: the type and where it ends.
pub open spec fn parse_field_at(s: Seq<char>, i: int) -> core::result::Result<(FieldType, int), DescriptorError>
    decreases s.len() - i,
{
    if i < 0 || i >= s.len() {
        Err(DescriptorError::Empty)
    } else {
        let c = s[i];
        match base_of_letter(c) {
            Some(b) => Ok((FieldType::Base(b), i + 1)),
            None => if c == 'L' {
                match find_char(s, ';', i + 1) {
                    Some(end) => Ok((FieldType::Object(s.subrange(i + 1, end)), end + 1)),
                    None => Err(DescriptorError::UnterminatedObject),
                }
            } else if c == '[' {
                match parse_field_at(s, i + 1) {
                    Ok((inner, next)) => Ok((FieldType::Array(Box::new(inner)), next)),
                    Err(e) => Err(e),
                }
            } else {
                Err(DescriptorError::UnknownToken(c))
            },
        }
    }
}

/// Parse a whole field descriptor.
pub open spec fn parse_field_spec(s: Seq<char>) -> core::result::Result<FieldType, DescriptorError> {
    match parse_field_at(s, 0) {
        Ok((t, next)) => if next == s.len() {
            Ok(t)
        } else {
            Err(DescriptorError::TrailingField(s.subrange(next, s.len() as int)))
        },
        Err(e) => Err(e),
    }
}

pub proof fn lemma_find_char_bounds(s: Seq<char>, c: char, i: int)
    ensures
        find_char(s, c, i) matches Some(k) ==> i <= k < s.len() && s[k] == c,
        0 <= i && find_char(s, c, i) is None ==> forall|k: int| i <= k < s.len() ==> s[k] != c,
    decreases s.len() - i,
{
    if 0 <= i < s.len() && s[i] != c {
        lemma_find_char_bounds(s, c, i + 1);
    }
}

pub proof fn lemma_parse_field_advances(s: Seq<char>, i: int)
    ensures
        parse_field_at(s, i) matches Ok((_, next)) ==> i < next <= s.len(),
    decreases s.len() - i,
{
    if 0 <= i < s.len() {
        if s[i] == 'L' {
            lemma_find_char_bounds(s, ';', i + 1);
        } else if s[i] == '[' {
            lemma_parse_field_advances(s, i + 1);
        }
    }
}

fn find_semicolon(cs: &Vec<char>, from: usize) -> (r: Option<usize>)
    requires
        from <= cs@.len(),
    ensures
        match find_char(cs@, ';', from as int) {
            Some(k) => r == Some(k as usize),
            None => r is None,
        },
{
    let mut i = from;
    while i < cs.len()
        invariant
            from <= i <= cs@.len(),
            find_char(cs@, ';', from as int) == find_char(cs@, ';', i as int),
        decreases cs@.len() - i,
    {
        if cs[i] == ';' {
            return Some(i);
        }
        i += 1;
    }
    None
}

fn base_from_letter(c: char) -> (r: Option<BaseType>)
    ensures
        r == base_of_letter(c),
{
    match c {
        'B' => Some(BaseType::Byte),
        'C' => Some(BaseType::Char),
        'D' => Some(BaseType::Double),
        'F' => Some(BaseType::Float),
        'I' => Some(BaseType::Int),
        'J' => Some(BaseType::Long),
        'S' => Some(BaseType::Short),
        'Z' => Some(BaseType::Boolean),
        _ => None,
    }
}

fn error_message(what: &str) -> (e: Error)
    ensures
        e matches Error::Encoding(m) && m@ == what@,
{
    let mut m = String::new();
    push_str(&mut m, what);
    Error::Encoding(m)
}

fn parse_field(cs: &Vec<char>, i: usize) -> (r: Result<(FieldDescriptor, usize)>)
    requires
        i <= cs@.len(),
    ensures
        match parse_field_at(cs@, i as int) {
            Ok((t, next)) => r matches Ok((d, n)) && d@ == t && n == next,
            Err(e) => is_descriptor_error(r, e),
        },
    decreases cs@.len() - i,
{
    if i >= cs.len() {
        return Err(error_message("empty field descriptor"));
    }
    let c = cs[i];
    match base_from_letter(c) {
        Some(b) => Ok((FieldDescriptor::Base(b), i + 1)),
        None => {
            if c == 'L' {
                match find_semicolon(cs, i + 1) {
                    Some(end) => {
                        proof { lemma_find_char_bounds(cs@, ';', i + 1); }
                        Ok((FieldDescriptor::Object(string_of(cs, i + 1, end)), end + 1))
                    },
                    None => Err(error_message("unterminated 'L' in descriptor")),
                }
            } else if c == '[' {
                match parse_field(cs, i + 1) {
                    Ok((inner, next)) => Ok((FieldDescriptor::Array(Box::new(inner)), next)),
                    Err(e) => Err(e),
                }
            } else {
                let mut m = String::new();
                push_str(&mut m, "unknown descriptor token ");
                let q = debug_quoted_char(c);
                push_str(&mut m, q.as_str());
                Err(Error::Encoding(m))
            }
        },
    }
}

impl Clone for FieldDescriptor {
    fn clone(&self) -> (r: Self)
        ensures
            r@ == self@,
        decreases self,
    {
        match self {
            FieldDescriptor::Base(b) => FieldDescriptor::Base(*b),
            FieldDescriptor::Object(n) => FieldDescriptor::Object(n.clone()),
            FieldDescriptor::Array(inner) => FieldDescriptor::Array(Box::new((**inner).clone())),
        }
    }
}

impl FieldDescriptor {
    pub fn parse(s: &str) -> (r: Result<Self>)
        ensures
            match parse_field_spec(s@) {
                Ok(t) => r matches Ok(d) && d@ == t,
                Err(e) => is_descriptor_error(r, e),
            },
    {
        let cs = chars_of(s);
        let (desc, next) = parse_field(&cs, 0)?;
        proof { lemma_parse_field_advances(cs@, 0); }
        if next != cs.len() {
            let rest = string_of(&cs, next, cs.len());
            let mut m = String::new();
            push_str(&mut m, "trailing bytes in field descriptor: ");
            let q = debug_quoted_str(rest.as_str());
            push_str(&mut m, q.as_str());
            return Err(Error::Encoding(m));
        }
        Ok(desc)
    }

    pub fn slots(&self) -> (n: u16)
        ensures
            n == field_type_slots(self@),
    {
        match self {
            FieldDescriptor::Base(b) => b.slots(),
            _ => 1,
        }
    }

    /// The descriptor text.
    pub fn to_string(&self) -> (s: String)
        ensures
            s@ == field_chars(self@),
    {
        let mut s = String::new();
        self.write_to(&mut s);
        s
    }

    fn write_to(&self, s: &mut String)
        ensures
            final(s)@ == old(s)@ + field_chars(self@),
        decreases self,
    {
        match self {
            FieldDescriptor::Base(b) => push_char(s, b.letter()),
            FieldDescriptor::Object(name) => {
                push_char(s, 'L');
                push_str(s, name.as_str());
                push_char(s, ';');
            },
            FieldDescriptor::Array(inner) => {
                push_char(s, '[');
                inner.write_to(s);
            },
        }
        assert(final(s)@ =~= old(s)@ + field_chars(self@));
    }
}

} // verus!

verus! {

/// Method descriptor. `None` return means `void`.
#[derive(Debug, Clone, PartialEq, Eq, Hash)]
pub struct MethodDescriptor {
    pub params: Vec<FieldDescriptor>,
    pub ret: Option<FieldDescriptor>,
}

pub open spec fn field_types(ds: Seq<FieldDescriptor>) -> Seq<FieldType> {
    ds.map_values(|d: FieldDescriptor| d@)
}

pub open spec fn opt_field_type(d: Option<FieldDescriptor>) -> Option<FieldType> {
    match d {
        Some(x) => Some(x@),
        None => None,
    }
}

/// Parameter list from `i` up to and including the closing `)`.
pub open spec fn parse_params_at(s: Seq<char>, i: int) -> core::result::Result<(Seq<FieldType>, int), DescriptorError>
    decreases s.len() - i,
{
    if 0 <= i < s.len() && s[i] == ')' {
        Ok((Seq::empty(), i + 1))
    } else {
        match parse_field_at(s, i) {
            Err(e) => Err(e),
            Ok((t, n)) => {
                proof {
                    lemma_parse_field_advances(s, i);
                }
                match parse_params_at(s, n) {
                    Ok((ts, m)) => Ok((seq![t] + ts, m)),
                    Err(e) => Err(e),
                }
            },
        }
    }
}

/// Parse a whole method descriptor: parameters and return type (`None` for void).
pub open spec fn parse_method_spec(s: Seq<char>) -> core::result::Result<(Seq<FieldType>, Option<FieldType>), DescriptorError> {
    if s.len() == 0 || s[0] != '(' {
        Err(DescriptorError::NoOpenParen)
    } else {
        match parse_params_at(s, 1) {
            Err(e) => Err(e),
            Ok((ps, k)) => if s.subrange(k, s.len() as int) == seq!['V'] {
                Ok((ps, None))
            } else {
                match parse_field_at(s, k) {
                    Err(e) => Err(e),
                    Ok((r, n)) => if n == s.len() {
                        Ok((ps, Some(r)))
                    } else {
                        Err(DescriptorError::TrailingMethod(s.subrange(n, s.len() as int)))
                    },
                }
            },
        }
    }
}

/// Total local slots of a parameter list.
pub open spec fn slots_sum(ts: Seq<FieldType>) -> int
    decreases ts.len(),
{
    if ts.len() == 0 { 0 } else { slots_sum(ts.drop_last()) + field_type_slots(ts.last()) }
}

/// Descriptor text of a parameter list, without the parentheses.
pub open spec fn params_chars(ts: Seq<FieldType>) -> Seq<char>
    decreases ts.len(),
{
    if ts.len() == 0 { Seq::empty() } else { params_chars(ts.drop_last()) + field_chars(ts.last()) }
}

/// Descriptor text of a method.
pub open spec fn method_chars(ps: Seq<FieldType>, ret: Option<FieldType>) -> Seq<char> {
    seq!['('] + params_chars(ps) + seq![')'] + match ret {
        Some(r) => field_chars(r),
        None => seq!['V'],
    }
}

proof fn lemma_parse_params_advances(s: Seq<char>, i: int)
    ensures
        parse_params_at(s, i) matches Ok((_, next)) ==> i < next <= s.len(),
    decreases s.len() - i,
{
    if !(0 <= i < s.len() && s[i] == ')') {
        lemma_parse_field_advances(s, i);
        if let Ok((t, n)) = parse_field_at(s, i) {
            lemma_parse_params_advances(s, n);
        }
    }
}

fn is_just_v(cs: &Vec<char>, k: usize) -> (b: bool)
    requires
        k <= cs@.len(),
    ensures
        b == (cs@.subrange(k as int, cs@.len() as int) == seq!['V']),
{
    let b = cs.len() - k == 1 && cs[k] == 'V';
    proof {
        let sub = cs@.subrange(k as int, cs@.len() as int);
        if b {
            assert(sub =~= seq!['V']);
        } else if sub == seq!['V'] {
            assert(sub.len() == 1);
            assert(sub[0] == cs@[k as int]);
        }
    }
    b
}

impl MethodDescriptor {
    pub fn parse(s: &str) -> (r: Result<Self>)
        ensures
            match parse_method_spec(s@) {
                Ok((ps, ret)) => r matches Ok(m) && field_types(m.params@) == ps && opt_field_type(m.ret) == ret,
                Err(e) => is_descriptor_error(r, e),
            },
    {
        let cs = chars_of(s);
        if cs.len() == 0 || cs[0] != '(' {
            return Err(error_message("method descriptor must start with '('"));
        }
        let mut params: Vec<FieldDescriptor> = Vec::new();
        let mut cursor: usize = 1;
        loop
            invariant_except_break
                1 <= cursor <= cs@.len(),
                parse_params_at(cs@, 1) == match parse_params_at(cs@, cursor as int) {
                    Ok((ts, m)) => Ok((field_types(params@) + ts, m)),
                    Err(e) => Err(e),
                },
            invariant
                cs@ == s@,
                cs@.len() > 0 && cs@[0] == '(',
            ensures
                1 <= cursor <= cs@.len(),
                parse_params_at(cs@, 1) == Ok::<(Seq<FieldType>, int), DescriptorError>((field_types(params@), cursor as int)),
            decreases cs@.len() - cursor,
        {
            if cursor < cs.len() && cs[cursor] == ')' {
                proof {
                    assert(field_types(params@) + Seq::<FieldType>::empty() =~= field_types(params@));
                }
                cursor += 1;
                break;
            }
            let (p, c) = match parse_field(&cs, cursor) {
                Ok(v) => v,
                Err(e) => return Err(e),
            };
            proof {
                lemma_parse_field_advances(cs@, cursor as int);
                assert(field_types(params@.push(p)) =~= field_types(params@) + seq![p@]);
                if let Ok((ts, m)) = parse_params_at(cs@, c as int) {
                    assert(field_types(params@) + (seq![p@] + ts) =~= field_types(params@.push(p)) + ts);
                }
            }
            params.push(p);
            cursor = c;
        }
        let ret = if is_just_v(&cs, cursor) {
            None
        } else {
            let (r, rest) = parse_field(&cs, cursor)?;
            proof { lemma_parse_field_advances(cs@, cursor as int); }
            if rest != cs.len() {
                let tail = string_of(&cs, rest, cs.len());
                let mut m = String::new();
                push_str(&mut m, "trailing: ");
                let q = debug_quoted_str(tail.as_str());
                push_str(&mut m, q.as_str());
                return Err(Error::Encoding(m));
            }
            Some(r)
        };
        Ok(Self { params, ret })
    }

    /// Total local slots required for the parameter list (`long`/`double` count twice).
    pub fn param_slots(&self) -> (n: u16)
        requires
            slots_sum(field_types(self.params@)) <= u16::MAX,
        ensures
            n == slots_sum(field_types(self.params@)),
    {
        let mut total: u16 = 0;
        let mut i: usize = 0;
        while i < self.params.len()
            invariant
                i <= self.params@.len(),
                slots_sum(field_types(self.params@)) <= u16::MAX,
                total == slots_sum(field_types(self.params@.subrange(0, i as int))),
            decreases self.params@.len() - i,
        {
            proof {
                let a = field_types(self.params@.subrange(0, i + 1));
                assert(a.drop_last() =~= field_types(self.params@.subrange(0, i as int)));
                lemma_slots_sum_prefix(field_types(self.params@), i + 1);
                assert(field_types(self.params@).subrange(0, i + 1) =~= a);
            }
            total = total + self.params[i].slots();
            i += 1;
        }
        assert(self.params@.subrange(0, i as int) =~= self.params@);
        total
    }

    /// The descriptor text.
    pub fn to_string(&self) -> (s: String)
        ensures
            s@ == method_chars(field_types(self.params@), opt_field_type(self.ret)),
    {
        let mut s = String::new();
        push_char(&mut s, '(');
        let mut i: usize = 0;
        while i < self.params.len()
            invariant
                i <= self.params@.len(),
                s@ == seq!['('] + params_chars(field_types(self.params@.subrange(0, i as int))),
            decreases self.params@.len() - i,
        {
            self.params[i].write_to(&mut s);
            proof {
                let a = field_types(self.params@.subrange(0, i + 1));
                assert(a.drop_last() =~= field_types(self.params@.subrange(0, i as int)));
            }
            i += 1;
            assert(s@ =~= seq!['('] + params_chars(field_types(self.params@.subrange(0, i as int))));
        }
        assert(self.params@.subrange(0, i as int) =~= self.params@);
        push_char(&mut s, ')');
        match &self.ret {
            Some(r) => r.write_to(&mut s),
            None => push_char(&mut s, 'V'),
        }
        assert(s@ =~= method_chars(field_types(self.params@), opt_field_type(self.ret)));
        s
    }
}

proof fn lemma_slots_sum_prefix(ts: Seq<FieldType>, k: int)
    requires
        0 <= k <= ts.len(),
    ensures
        slots_sum(ts.subrange(0, k)) <= slots_sum(ts),
    decreases ts.len(),
{
    if k < ts.len() {
        assert(ts.drop_last().subrange(0, k) =~= ts.subrange(0, k));
        lemma_slots_sum_prefix(ts.drop_last(), k);
    } else {
        assert(ts.subrange(0, k) =~= ts);
    }
}

} // verus!

verus! {

/// Whether no class name inside `t` holds a `;`.
pub open spec fn names_ok(t: FieldType) -> bool
    decreases t,
{
    match t {
        FieldType::Base(_) => true,
        FieldType::Object(n) => !n.contains(';'),
        FieldType::Array(inner) => names_ok(*inner),
    }
}

proof fn lemma_base_letter_roundtrip(b: BaseType)
    ensures
        base_of_letter(base_letter(b)) == Some(b),
{
}

proof fn lemma_parse_field_chars(p: Seq<char>, t: FieldType, r: Seq<char>)
    requires
        names_ok(t),
    ensures
        parse_field_at(p + field_chars(t) + r, p.len() as int)
            == Ok::<(FieldType, int), DescriptorError>((t, (p.len() + field_chars(t).len()) as int)),
    decreases t,
{
    let s = p + field_chars(t) + r;
    let i = p.len() as int;
    assert(s[i] == field_chars(t)[0]);
    match t {
        FieldType::Base(b) => {
            lemma_base_letter_roundtrip(b);
        },
        FieldType::Object(n) => {
            let end = i + 1 + n.len();
            assert(s[end] == ';');
            assert forall|k: int| i + 1 <= k < end implies s[k] != ';' by {
                assert(s[k] == n[k - i - 1]);
            }
            lemma_find_char_scan(s, i + 1, end);
            assert(s.subrange(i + 1, end) =~= n);
        },
        FieldType::Array(inner) => {
            let inner_t = *inner;
            assert(s =~= (p + seq!['[']) + field_chars(inner_t) + r);
            lemma_parse_field_chars(p + seq!['['], inner_t, r);
        },
    }
}

proof fn lemma_find_char_scan(s: Seq<char>, i: int, end: int)
    requires
        0 <= i <= end < s.len(),
        s[end] == ';',
        forall|k: int| i <= k < end ==> s[k] != ';',
    ensures
        find_char(s, ';', i) == Some(end),
    decreases end - i,
{
    if i < end {
        lemma_find_char_scan(s, i + 1, end);
    }
}

/// Printing a field descriptor and parsing the text gives the descriptor
/// back, when no class name in it holds a `;`.
pub proof fn lemma_field_descriptor_roundtrip(t: FieldType)
    requires
        names_ok(t),
    ensures
        parse_field_spec(field_chars(t)) == Ok::<FieldType, DescriptorError>(t),
{
    let e = Seq::<char>::empty();
    lemma_parse_field_chars(e, t, e);
    assert(e + field_chars(t) + e =~= field_chars(t));
}

proof fn lemma_parsed_field_text(s: Seq<char>, i: int)
    ensures
        parse_field_at(s, i) matches Ok((t, n)) ==> 0 <= i < n <= s.len() && s.subrange(i, n) == field_chars(t),
    decreases s.len() - i,
{
    lemma_parse_field_advances(s, i);
    if 0 <= i < s.len() {
        if let Ok((t, n)) = parse_field_at(s, i) {
            let c = s[i];
            if base_of_letter(c) is Some {
                assert(s.subrange(i, n) =~= field_chars(t));
            } else if c == 'L' {
                lemma_find_char_bounds(s, ';', i + 1);
                assert(s.subrange(i, n) =~= field_chars(t));
            } else {
                lemma_parsed_field_text(s, i + 1);
                assert(s.subrange(i, n) =~= field_chars(t));
            }
        }
    }
}

/// A field descriptor that parses prints back to the text it came from.
pub proof fn lemma_field_descriptor_reprint(s: Seq<char>)
    ensures
        parse_field_spec(s) matches Ok(t) ==> field_chars(t) == s,
{
    lemma_parsed_field_text(s, 0);
    if let Ok((t, n)) = parse_field_at(s, 0) {
        assert(s.subrange(0, s.len() as int) =~= s);
    }
}

/// A field descriptor's text is never empty, and starts with neither `)`
/// nor `V`.
proof fn lemma_field_chars_head(t: FieldType)
    ensures
        field_chars(t).len() >= 1,
        field_chars(t)[0] != ')',
        field_chars(t)[0] != 'V',
{
}

/// The text of a parameter list split after its first parameter.
proof fn lemma_params_chars_cons(t: FieldType, ts: Seq<FieldType>)
    ensures
        params_chars(seq![t] + ts) == field_chars(t) + params_chars(ts),
    decreases ts.len(),
{
    if ts.len() == 0 {
        assert((seq![t] + ts).drop_last() =~= Seq::<FieldType>::empty());
        assert(params_chars(Seq::<FieldType>::empty()) =~= Seq::<char>::empty());
        assert(field_chars(t) + params_chars(ts) =~= Seq::<char>::empty() + field_chars(t));
    } else {
        lemma_params_chars_cons(t, ts.drop_last());
        assert((seq![t] + ts).drop_last() =~= seq![t] + ts.drop_last());
        assert(field_chars(t) + params_chars(ts) =~= (field_chars(t) + params_chars(ts.drop_last())) + field_chars(ts.last()));
    }
}

proof fn lemma_parse_params_chars(p: Seq<char>, ts: Seq<FieldType>, r: Seq<char>)
    requires
        forall|k: int| 0 <= k < ts.len() ==> names_ok(#[trigger] ts[k]),
    ensures
        parse_params_at(p + params_chars(ts) + seq![')'] + r, p.len() as int)
            == Ok::<(Seq<FieldType>, int), DescriptorError>((ts, (p.len() + params_chars(ts).len() + 1) as int)),
    decreases ts.len(),
{
    let s = p + params_chars(ts) + seq![')'] + r;
    let i = p.len() as int;
    if ts.len() == 0 {
        assert(s[i] == ')');
        assert(ts =~= Seq::<FieldType>::empty());
        assert(params_chars(ts).len() == 0);
    } else {
        let t = ts[0];
        let rest = ts.skip(1);
        assert(ts =~= seq![t] + rest);
        lemma_params_chars_cons(t, rest);
        lemma_field_chars_head(t);
        assert(s[i] == field_chars(t)[0]);
        assert(s =~= p + field_chars(t) + (params_chars(rest) + seq![')'] + r));
        lemma_parse_field_chars(p, t, params_chars(rest) + seq![')'] + r);
        let p2 = p + field_chars(t);
        assert(s =~= p2 + params_chars(rest) + seq![')'] + r);
        assert forall|k: int| 0 <= k < rest.len() implies names_ok(#[trigger] rest[k]) by {
            assert(rest[k] == ts[k + 1]);
        }
        lemma_parse_params_chars(p2, rest, r);
        assert(parse_field_at(s, i) == Ok::<(FieldType, int), DescriptorError>((t, p2.len() as int)));
        assert(parse_params_at(s, p2.len() as int)
            == Ok::<(Seq<FieldType>, int), DescriptorError>((rest, (p2.len() + params_chars(rest).len() + 1) as int)));
        assert(params_chars(ts) == field_chars(t) + params_chars(rest));
        assert(!(0 <= i < s.len() && s[i] == ')'));
        assert(parse_params_at(s, i) == Ok::<(Seq<FieldType>, int), DescriptorError>((seq![t] + rest, (p2.len() + params_chars(rest).len() + 1) as int)));
    }
}

/// Printing a method descriptor and parsing the text gives the parameters
/// and the return type back, when no class name in them holds a `;`.
pub proof fn lemma_method_descriptor_roundtrip(ps: Seq<FieldType>, ret: Option<FieldType>)
    requires
        forall|k: int| 0 <= k < ps.len() ==> names_ok(#[trigger] ps[k]),
        ret matches Some(r) ==> names_ok(r),
    ensures
        parse_method_spec(method_chars(ps, ret)) == Ok::<(Seq<FieldType>, Option<FieldType>), DescriptorError>((ps, ret)),
{
    let tail: Seq<char> = match ret {
        Some(r) => field_chars(r),
        None => seq!['V'],
    };
    let s = method_chars(ps, ret);
    assert(s =~= seq!['('] + params_chars(ps) + seq![')'] + tail);
    lemma_parse_params_chars(seq!['('], ps, tail);
    let k = 1 + params_chars(ps).len() + 1;
    assert(s.subrange(k as int, s.len() as int) =~= tail);
    if let Some(r) = ret {
        lemma_field_chars_head(r);
        assert(tail != seq!['V']) by {
            assert(tail[0] != 'V');
        }
        let pre = seq!['('] + params_chars(ps) + seq![')'];
        assert(s =~= pre + field_chars(r) + Seq::<char>::empty());
        lemma_parse_field_chars(pre, r, Seq::<char>::empty());
    }
}

} // verus!
