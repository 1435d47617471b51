use vstd::prelude::*;
use vstd::string::*;

verus! {

/// A tagged scalar as the key-value store holds it.
#[derive(Debug)]
pub enum AttrValue {
    S(String),
    N(i64),
    Bool(bool),
}

/// The mathematical value of an `AttrValue`.
pub enum AttrValueV {
    S(Seq<char>),
    N(i64),
    Bool(bool),
}

impl View for AttrValue {
    type V = AttrValueV;

    open spec fn view(&self) -> AttrValueV {
        match self {
            AttrValue::S(s) => AttrValueV::S(s@),
            AttrValue::N(n) => AttrValueV::N(*n),
            AttrValue::Bool(b) => AttrValueV::Bool(*b),
        }
    }
}

impl AttrValue {
    pub fn copy_value(&self) -> (r: AttrValue)
        ensures
            r@ == self@,
    {
        match self {
            AttrValue::S(s) => AttrValue::S(s.clone()),
            AttrValue::N(n) => AttrValue::N(*n),
            AttrValue::Bool(b) => AttrValue::Bool(*b),
        }
    }
}

/// One named attribute of a record.
#[derive(Debug)]
pub struct Attr {
    pub name: String,
    pub value: AttrValue,
}

/// The mathematical value of an attribute map: named values in order.
pub type AttrSeq = Seq<(Seq<char>, AttrValueV)>;

/// A record of the store: string-keyed attributes.
#[derive(Debug)]
pub struct AttrMap {
    pub entries: Vec<Attr>,
}

impl View for AttrMap {
    type V = AttrSeq;

    open spec fn view(&self) -> AttrSeq {
        self.entries@.map_values(|a: Attr| (a.name@, a.value@))
    }
}

/// The value of the first attribute at or after position `i` named `name`.
pub open spec fn lookup_from(m: AttrSeq, name: Seq<char>, i: int) -> Option<AttrValueV>
    decreases m.len() - i,
{
    if i < 0 || i >= m.len() {
        None
    } else if m[i].0 == name {
        Some(m[i].1)
    } else {
        lookup_from(m, name, i + 1)
    }
}

/// The value of the first attribute named `name`.
pub open spec fn lookup(m: AttrSeq, name: Seq<char>) -> Option<AttrValueV> {
    lookup_from(m, name, 0)
}

/// The string held under `name`, if there is one of the string variant.
pub open spec fn lookup_s(m: AttrSeq, name: Seq<char>) -> Option<Seq<char>> {
    match lookup(m, name) {
        Some(AttrValueV::S(s)) => Some(s),
        _ => None,
    }
}

/// The integer held under `name`, if there is one of the number variant.
pub open spec fn lookup_n(m: AttrSeq, name: Seq<char>) -> Option<i64> {
    match lookup(m, name) {
        Some(AttrValueV::N(n)) => Some(n),
        _ => None,
    }
}

impl AttrMap {
    pub fn new() -> (r: AttrMap)
        ensures
            r@ == Seq::<(Seq<char>, AttrValueV)>::empty(),
    {
        let r = AttrMap { entries: Vec::new() };
        assert(r@ =~= Seq::<(Seq<char>, AttrValueV)>::empty());
        r
    }

    pub fn push(&mut self, name: &str, value: AttrValue)
        ensures
            final(self)@ == old(self)@.push((name@, value@)),
    {
        let ghost before = self@;
        let v = value;
        self.entries.push(Attr { name: String::from_str(name), value: v });
        assert(self@ =~= before.push((name@, v@)));
    }

    pub fn push_s(&mut self, name: &str, value: &String)
        ensures
            final(self)@ == old(self)@.push((name@, AttrValueV::S(value@))),
    {
        self.push(name, AttrValue::S(value.clone()));
    }

    pub fn push_n(&mut self, name: &str, value: i64)
        ensures
            final(self)@ == old(self)@.push((name@, AttrValueV::N(value))),
    {
        self.push(name, AttrValue::N(value));
    }

    /// The first attribute named `name`.
    pub fn get(&self, name: &str) -> (r: Option<&AttrValue>)
        ensures
            match r {
                Some(v) => lookup(self@, name@) == Some(v@),
                None => lookup(self@, name@) is None,
            },
    {
        let key = String::from_str(name);
        let mut i: usize = 0;
        while i < self.entries.len()
            invariant
                0 <= i <= self.entries@.len(),
                key@ == name@,
                lookup(self@, name@) == lookup_from(self@, name@, i as int),
            decreases self.entries@.len() - i,
        {
            if self.entries[i].name == key {
                return Some(&self.entries[i].value);
            }
            i = i + 1;
        }
        None
    }
}

impl AttrMap {
    /// A copy with the same attributes.
    pub fn copy_map(&self) -> (r: AttrMap)
        ensures
            r@ == self@,
    {
        let mut entries: Vec<Attr> = Vec::new();
        let mut i: usize = 0;
        while i < self.entries.len()
            invariant
                0 <= i <= self.entries@.len(),
                entries@.map_values(|a: Attr| (a.name@, a.value@)) == self@.take(i as int),
            decreases self.entries@.len() - i,
        {
            let a = &self.entries[i];
            let ghost before = entries@;
            entries.push(Attr { name: a.name.clone(), value: a.value.copy_value() });
            assert(entries@.map_values(|a: Attr| (a.name@, a.value@)) =~= before.map_values(
                |a: Attr| (a.name@, a.value@),
            ).push(self@[i as int]));
            assert(self@.take(i + 1) =~= self@.take(i as int).push(self@[i as int]));
            i = i + 1;
        }
        let r = AttrMap { entries };
        assert(r@ =~= self@);
        r
    }

    /// The string held under `name`, if there is one of the string variant.
    pub fn get_s(&self, name: &str) -> (r: Option<String>)
        ensures
            match r {
                Some(s) => lookup_s(self@, name@) == Some(s@),
                None => lookup_s(self@, name@) is None,
            },
    {
        match self.get(name) {
            Some(AttrValue::S(s)) => Some(s.clone()),
            _ => None,
        }
    }

    /// The integer held under `name`, if there is one of the number variant.
    pub fn get_n(&self, name: &str) -> (r: Option<i64>)
        ensures
            r == lookup_n(self@, name@),
    {
        match self.get(name) {
            Some(AttrValue::N(n)) => Some(*n),
            _ => None,
        }
    }
}

} // verus!
