//! Query parameters and the filters that they come from.

use crate::text::{decimal, flag, render_decimal, render_flag, text_view};
use vstd::prelude::*;
use vstd::string::StringExecFns;

verus! {

/// One query parameter.
#[derive(Debug, PartialEq, Eq)]
pub struct Pair {
    pub name: String,
    pub value: String,
}

impl Clone for Pair {
    fn clone(&self) -> (r: Pair)
        ensures
            r@ == self@,
    {
        Pair { name: self.name.clone(), value: self.value.clone() }
    }
}

impl View for Pair {
    type V = (Seq<char>, Seq<char>);

    open spec fn view(&self) -> (Seq<char>, Seq<char>) {
        (self.name@, self.value@)
    }
}

/// The content of a list of query parameters.
pub open spec fn pairs(list: Seq<Pair>) -> Seq<(Seq<char>, Seq<char>)> {
    list.map_values(|pair: Pair| pair@)
}

/// Copies a list of query parameters.
pub(crate) fn copy_pairs(list: &Vec<Pair>) -> (r: Vec<Pair>)
    ensures
        pairs(r@) == pairs(list@),
{
    let mut copy: Vec<Pair> = Vec::new();
    let mut i: usize = 0;
    while i < list.len()
        invariant
            i <= list.len(),
            pairs(copy@) == pairs(list@.take(i as int)),
        decreases list.len() - i,
    {
        let ghost before = pairs(copy@);
        copy.push(list[i].clone());
        assert(pairs(copy@) =~= before.push(list@[i as int]@));
        assert(pairs(list@.take(i + 1)) =~= pairs(list@.take(i as int)).push(list@[i as int]@));
        i += 1;
    }
    assert(list@.take(i as int) =~= list@);
    copy
}

/// One field of a filter. A field without a value is not sent.
#[derive(Clone, Debug, PartialEq, Eq)]
pub struct Field {
    pub name: String,
    pub value: Option<String>,
}

impl View for Field {
    type V = (Seq<char>, Option<Seq<char>>);

    open spec fn view(&self) -> (Seq<char>, Option<Seq<char>>) {
        (self.name@, text_view(self.value))
    }
}

/// The fields of a filter object, in the order in which they are sent.
#[derive(Clone, Debug, PartialEq, Eq)]
pub struct Filter {
    pub fields: Vec<Field>,
}

impl View for Filter {
    type V = Seq<(Seq<char>, Option<Seq<char>>)>;

    open spec fn view(&self) -> Seq<(Seq<char>, Option<Seq<char>>)> {
        self.fields@.map_values(|field: Field| field@)
    }
}

/// The query parameter that a field stands for: none where it has no value.
pub open spec fn parameter(field: (Seq<char>, Option<Seq<char>>)) -> Option<
    (Seq<char>, Seq<char>),
> {
    match field.1 {
        Some(value) => Some((field.0, value)),
        None => None,
    }
}

/// The query parameters of a filter: its fields that have a value, in order.
pub open spec fn present(fields: Seq<(Seq<char>, Option<Seq<char>>)>) -> Seq<
    (Seq<char>, Seq<char>),
> {
    fields.filter_map(|field: (Seq<char>, Option<Seq<char>>)| parameter(field))
}

impl Filter {
    /// A filter without fields.
    pub fn new() -> (r: Filter)
        ensures
            r@ == Seq::<(Seq<char>, Option<Seq<char>>)>::empty(),
    {
        let r = Filter { fields: Vec::new() };
        assert(r@ =~= Seq::<(Seq<char>, Option<Seq<char>>)>::empty());
        r
    }

    /// This filter with one more field at its end; the field is sent only
    /// where `value` is given.
    pub fn with(self, name: &str, value: Option<String>) -> (r: Filter)
        ensures
            r@ == self@.push((name@, text_view(value))),
    {
        let mut fields = self.fields;
        let ghost before = fields@.map_values(|field: Field| field@);
        fields.push(Field { name: String::from_str(name), value });
        let r = Filter { fields };
        assert(r@ =~= before.push((name@, text_view(value))));
        r
    }

    /// This filter with one more field that holds a flag.
    pub fn with_flag(self, name: &str, value: Option<bool>) -> (r: Filter)
        ensures
            r@ == self@.push(
                (
                    name@,
                    match value {
                        Some(b) => Some(flag(b)),
                        None => None,
                    },
                ),
            ),
    {
        let text = match value {
            Some(b) => Some(render_flag(b)),
            None => None,
        };
        self.with(name, text)
    }

    /// This filter with one more field that holds a number.
    pub fn with_number(self, name: &str, value: Option<u32>) -> (r: Filter)
        ensures
            r@ == self@.push(
                (
                    name@,
                    match value {
                        Some(n) => Some(decimal(n as nat)),
                        None => None,
                    },
                ),
            ),
    {
        let text = match value {
            Some(n) => Some(render_decimal(n)),
            None => None,
        };
        self.with(name, text)
    }

    /// The query parameters that this filter stands for.
    pub fn query(&self) -> (r: Vec<Pair>)
        ensures
            pairs(r@) == present(self@),
    {
        let mut out: Vec<Pair> = Vec::new();
        let mut i: usize = 0;
        assert(pairs(out@) =~= present(self@.take(0)));
        while i < self.fields.len()
            invariant
                i <= self.fields.len(),
                pairs(out@) == present(self@.take(i as int)),
            decreases self.fields.len() - i,
        {
            let field = &self.fields[i];
            let ghost before = pairs(out@);
            match &field.value {
                Some(value) => {
                    out.push(Pair { name: field.name.clone(), value: value.clone() });
                    assert(pairs(out@) =~= before.push((field.name@, value@)));
                },
                None => {},
            }
            proof {
                self@.lemma_filter_map_take_succ(
                    |field: (Seq<char>, Option<Seq<char>>)| parameter(field),
                    i as int,
                );
                assert(self@[i as int] == field@);
            }
            i += 1;
        }
        assert(self@.take(i as int) =~= self@);
        out
    }
}

} // verus!
