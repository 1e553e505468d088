//! The types of the values that ports carry, and how they are displayed.

use compact_str::CompactString;
use vstd::prelude::*;

use crate::text::compact_as_str;
use crate::text::compact_from;
use crate::text::decimal;
use crate::text::push_decimal;
use crate::text::text_of;

verus! {

/// The shape of a value.
#[derive(Debug, Clone, PartialEq)]
pub enum Type<'a> {
    /// Unsigned `n`-bit integer
    U(usize),
    /// Fixed-sized array
    FArray(&'a Type<'a>, usize),
    /// Variably-sized array
    VArray(&'a Type<'a>),
    /// An alias to an existing type
    Alias(&'a Type<'a>),
    /// A type defined in nodes
    Defined(DefinedType<'a>),
}

impl<'a> Type<'a> {
    /// The canonical display string of the type: `u` and the width for an
    /// integer, the element followed by `[n]` or `[]` for an array, the target's
    /// string for an alias, the name for a defined type.
    pub open spec fn display(&self) -> Seq<char>
        decreases self,
    {
        match self {
            Type::U(n) => seq!['u'] + decimal(*n as nat),
            Type::FArray(t, n) => t.display() + seq!['['] + decimal(*n as nat) + seq![']'],
            Type::VArray(t) => t.display() + seq!['[', ']'],
            Type::Alias(t) => t.display(),
            Type::Defined(dt) => dt.name_text(),
        }
    }

    /// Appends the display string of the type to `out`.
    fn push_display(&self, out: &mut String)
        ensures
            final(out)@ == old(out)@ + self.display(),
        decreases self,
    {
        proof {
            reveal_strlit("u");
            reveal_strlit("[");
            reveal_strlit("]");
            reveal_strlit("[]");
        }
        match self {
            Type::U(n) => {
                out.append("u");
                push_decimal(out, *n);
            },
            Type::FArray(t, n) => {
                t.push_display(out);
                out.append("[");
                push_decimal(out, *n);
                out.append("]");
            },
            Type::VArray(t) => {
                t.push_display(out);
                out.append("[]");
            },
            Type::Alias(t) => {
                t.push_display(out);
            },
            Type::Defined(dt) => {
                out.append(dt.get_name());
            },
        }
    }

    /// The display string of the type.
    pub fn display_name(&self) -> (name: String)
        ensures
            name@ == self.display(),
    {
        let mut name = String::new();
        self.push_display(&mut name);
        name
    }
}

/// A record type declared by the user: its name and its fields in order.
#[derive(Debug, Clone, PartialEq)]
pub struct DefinedType<'a> {
    name: CompactString,
    fields: Vec<(CompactString, &'a Type<'a>)>,
}

impl<'a> DefinedType<'a> {
    /// The name of the record.
    pub closed spec fn name_text(&self) -> Seq<char> {
        text_of(self.name)
    }

    /// The number of fields of the record.
    pub closed spec fn field_count(&self) -> nat {
        self.fields@.len()
    }

    /// The name of the field at `i`.
    pub closed spec fn field_name(&self, i: int) -> Seq<char> {
        text_of(self.fields@[i].0)
    }

    /// The type of the field at `i`.
    pub closed spec fn field_type(&self, i: int) -> &'a Type<'a> {
        self.fields@[i].1
    }

    /// A record with the given name and no fields.
    pub fn new(name: &str) -> (dt: Self)
        ensures
            dt.name_text() == name@,
            dt.field_count() == 0,
    {
        Self { name: compact_from(name), fields: Vec::new() }
    }

    /// Adds a field after those that the record has.
    pub fn with_field(self, name: &str, ty: &'a Type<'a>) -> (dt: Self)
        ensures
            dt.name_text() == self.name_text(),
            dt.field_count() == self.field_count() + 1,
            dt.field_name(self.field_count() as int) == name@,
            dt.field_type(self.field_count() as int) == ty,
            forall|i: int|
                0 <= i < self.field_count() ==> dt.field_name(i) == self.field_name(i)
                    && dt.field_type(i) == self.field_type(i),
    {
        let mut dt = self;
        dt.fields.push((compact_from(name), ty));
        dt
    }

    pub fn get_name(&self) -> (name: &str)
        ensures
            name@ == self.name_text(),
    {
        compact_as_str(&self.name)
    }

    /// The number of fields of the record.
    pub fn get_field_count(&self) -> (count: usize)
        ensures
            count == self.field_count(),
    {
        self.fields.len()
    }
}

} // verus!
