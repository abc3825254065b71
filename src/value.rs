use vstd::prelude::*;

verus! {

/// A value carried across the bridge, as argument or as reply payload.
///
/// Numbers outside `i64`, arrays and objects are carried only by their kind:
/// no built-in command reads them.
#[derive(Debug)]
pub enum Value {
    Null,
    Bool(bool),
    Int(i64),
    Str(String),
    Other,
}

/// The shape of a [`Value`], used to report a wrong-typed argument.
#[derive(Clone, Copy, Debug, PartialEq, Eq, Structural)]
pub enum ValueKind {
    Null,
    Bool,
    Int,
    Str,
    Other,
}

/// The shape of `v`.
pub open spec fn kind_of(v: Value) -> ValueKind {
    match v {
        Value::Null => ValueKind::Null,
        Value::Bool(_) => ValueKind::Bool,
        Value::Int(_) => ValueKind::Int,
        Value::Str(_) => ValueKind::Str,
        Value::Other => ValueKind::Other,
    }
}

impl Value {
    /// The shape of this value.
    pub fn kind(&self) -> (r: ValueKind)
        ensures
            r == kind_of(*self),
    {
        match self {
            Value::Null => ValueKind::Null,
            Value::Bool(_) => ValueKind::Bool,
            Value::Int(_) => ValueKind::Int,
            Value::Str(_) => ValueKind::Str,
            Value::Other => ValueKind::Other,
        }
    }
}

/// The value stored under `key`: a later entry overrides an earlier one, as
/// in a key/value object read from text.
pub open spec fn lookup_arg(entries: Seq<(String, Value)>, key: Seq<char>) -> Option<Value>
    decreases entries.len(),
{
    if entries.len() == 0 {
        None
    } else if entries.last().0@ == key {
        Some(entries.last().1)
    } else {
        lookup_arg(entries.drop_last(), key)
    }
}

/// The argument payload of one invocation: named values.
pub struct Args {
    entries: Vec<(String, Value)>,
}

impl View for Args {
    type V = Seq<(String, Value)>;

    closed spec fn view(&self) -> Seq<(String, Value)> {
        self.entries@
    }
}

impl Args {
    /// A payload with no arguments.
    pub fn new() -> (r: Args)
        ensures
            forall|k: Seq<char>| lookup_arg(r@, k) is None,
    {
        Args { entries: Vec::new() }
    }

    /// Sets argument `key` to `value`, replacing what it held.
    pub fn insert(&mut self, key: String, value: Value)
        ensures
            lookup_arg(final(self)@, key@) == Some(value),
            forall|k: Seq<char>| k != key@ ==> lookup_arg(final(self)@, k) == lookup_arg(old(self)@, k),
    {
        let ghost before = self.entries@;
        self.entries.push((key, value));
        assert(self.entries@.drop_last() == before);
    }

    /// Builder form of [`Args::insert`].
    pub fn with(self, key: String, value: Value) -> (r: Args)
        ensures
            lookup_arg(r@, key@) == Some(value),
            forall|k: Seq<char>| k != key@ ==> lookup_arg(r@, k) == lookup_arg(self@, k),
    {
        let mut r = self;
        r.insert(key, value);
        r
    }

    /// The argument named `key`, if the payload has it.
    pub fn get(&self, key: &str) -> (r: Option<&Value>)
        ensures
            match r {
                None => lookup_arg(self@, key@) is None,
                Some(v) => lookup_arg(self@, key@) == Some(*v),
            },
    {
        let wanted = String::from_str(key);
        let mut i: usize = self.entries.len();
        assert(self@.subrange(0, i as int) == self@);
        while i > 0
            invariant
                i <= self.entries@.len(),
                wanted@ == key@,
                lookup_arg(self@, key@) == lookup_arg(self@.subrange(0, i as int), key@),
            decreases i,
        {
            let ghost prefix = self@.subrange(0, i as int);
            assert(prefix.drop_last() == self@.subrange(0, i - 1));
            if self.entries[i - 1].0 == wanted {
                return Some(&self.entries[i - 1].1);
            }
            i = i - 1;
        }
        None
    }
}

} // verus!
