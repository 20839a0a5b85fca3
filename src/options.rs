use vstd::prelude::*;
use vstd::pervasive::VecAdditionalExecFns;

verus! {

/// Seals [`Options`]-style traits against implementations elsewhere.
pub trait Sealed {
}

/// A type that holds a fixed set of options and can build itself with every
/// option at its default.
pub trait Options: Sized {
    fn new() -> Self;
}

/// Loading a default value needed memory that could not be had.
#[derive(Clone, Copy, Debug)]
pub struct OutOfMemoryError(());

impl OutOfMemoryError {
    /// The message the error is printed with.
    pub fn message(&self) -> (r: &'static str)
        ensures
            r@ == "Out of memory"@,
    {
        proof {
            reveal_strlit("Out of memory");
        }
        "Out of memory"
    }
}

/// The value of one option, tagged with the option's type.
#[derive(Clone, Copy, Debug)]
pub enum OptionValue {
    Bool(bool),
    UInt(u64),
    /// A string option; `None` where no string is given.
    Str(Option<&'static str>),
}

/// One option as the C library lays it out: its name, whether it was set,
/// its default and current values, and a description.
#[allow(non_camel_case_types)]
#[derive(Clone, Copy, Debug)]
pub struct option {
    pub name: &'static str,
    pub set: bool,
    pub default_val: OptionValue,
    pub val: OptionValue,
    pub description: &'static str,
}

/// Gives `opt` its default value and marks it as set.
pub fn option_default(opt: &mut option) -> (r: Result<(), OutOfMemoryError>)
    ensures
        r is Ok,
        *final(opt) == (option { set: true, val: old(opt).default_val, ..*old(opt) }),
{
    opt.set = true;
    opt.val = opt.default_val;
    Ok(())
}

/// Gives every option of `options` its default value and marks it as set.
pub fn option_load_default(options: &mut Vec<option>) -> (r: Result<(), OutOfMemoryError>)
    ensures
        r is Ok,
        final(options)@.len() == old(options)@.len(),
        forall|i: int|
            0 <= i < old(options)@.len() ==> #[trigger] final(options)@[i] == (option {
                set: true,
                val: old(options)@[i].default_val,
                ..old(options)@[i]
            }),
{
    let ghost start = options@;
    let mut i: usize = 0;
    while i < options.len()
        invariant
            i <= options@.len(),
            options@.len() == start.len(),
            forall|k: int|
                0 <= k < i ==> #[trigger] options@[k] == (option {
                    set: true,
                    val: start[k].default_val,
                    ..start[k]
                }),
            forall|k: int| i <= k < options@.len() ==> #[trigger] options@[k] == start[k],
        decreases options@.len() - i,
    {
        let mut opt = options[i];
        let _ = option_default(&mut opt);
        options.set(i, opt);
        i = i + 1;
    }
    Ok(())
}

/// A boolean option.
pub struct Bool(option);

impl Sealed for Bool {
}

impl Bool {
    #[verifier::type_invariant]
    spec fn inv(&self) -> bool {
        self.0.val is Bool && self.0.default_val is Bool
    }

    pub closed spec fn spec_name(&self) -> Seq<char> {
        self.0.name@
    }

    pub closed spec fn spec_desc(&self) -> Seq<char> {
        self.0.description@
    }

    pub closed spec fn spec_value(&self) -> bool {
        self.0.val->Bool_0
    }

    pub closed spec fn spec_default(&self) -> bool {
        self.0.default_val->Bool_0
    }

    pub closed spec fn spec_is_set(&self) -> bool {
        self.0.set
    }

    /// An option that is not set, with value and default `default`.
    pub fn new(default: bool, name: &'static str, desc: &'static str) -> (r: Self)
        ensures
            r.spec_name() == name@,
            r.spec_desc() == desc@,
            r.spec_value() == default,
            r.spec_default() == default,
            !r.spec_is_set(),
    {
        Bool(
            option {
                name,
                set: false,
                default_val: OptionValue::Bool(default),
                val: OptionValue::Bool(default),
                description: desc,
            },
        )
    }

    /// An option that is not set, with value and default `false`.
    pub fn defaulted(name: &'static str, desc: &'static str) -> (r: Self)
        ensures
            r.spec_name() == name@,
            r.spec_desc() == desc@,
            r.spec_value() == false,
            r.spec_default() == false,
            !r.spec_is_set(),
    {
        Self::new(false, name, desc)
    }

    pub fn name(&self) -> (r: &'static str)
        ensures
            r@ == self.spec_name(),
    {
        self.0.name
    }

    pub fn desc(&self) -> (r: &'static str)
        ensures
            r@ == self.spec_desc(),
    {
        self.0.description
    }

    /// The current value.
    pub fn value(&self) -> (r: bool)
        ensures
            r == self.spec_value(),
    {
        proof {
            use_type_invariant(self);
        }
        match self.0.val {
            OptionValue::Bool(v) => v,
            _ => false,
        }
    }

    /// The default value.
    pub fn default(&self) -> (r: bool)
        ensures
            r == self.spec_default(),
    {
        proof {
            use_type_invariant(self);
        }
        match self.0.default_val {
            OptionValue::Bool(v) => v,
            _ => false,
        }
    }

    /// Whether the value was set from outside.
    pub fn is_set(&self) -> (r: bool)
        ensures
            r == self.spec_is_set(),
    {
        self.0.set
    }

    /// Overwrites the current value and marks the option as set.
    pub fn set_value(&mut self, val: bool)
        ensures
            final(self).spec_value() == val,
            final(self).spec_is_set(),
            final(self).spec_default() == old(self).spec_default(),
            final(self).spec_name() == old(self).spec_name(),
            final(self).spec_desc() == old(self).spec_desc(),
    {
        proof {
            use_type_invariant(&*self);
        }
        let opt = option { set: true, val: OptionValue::Bool(val), ..self.0 };
        *self = Bool(opt);
    }

    /// The option in the C library's layout.
    pub fn as_option(&self) -> (r: option)
        ensures
            r.val == OptionValue::Bool(self.spec_value()),
            r.default_val == OptionValue::Bool(self.spec_default()),
            r.set == self.spec_is_set(),
            r.name@ == self.spec_name(),
            r.description@ == self.spec_desc(),
    {
        proof {
            use_type_invariant(self);
        }
        self.0
    }
}

/// An unsigned integer option.
pub struct UInt(option);

impl Sealed for UInt {
}

impl UInt {
    #[verifier::type_invariant]
    spec fn inv(&self) -> bool {
        self.0.val is UInt && self.0.default_val is UInt
    }

    pub closed spec fn spec_name(&self) -> Seq<char> {
        self.0.name@
    }

    pub closed spec fn spec_desc(&self) -> Seq<char> {
        self.0.description@
    }

    pub closed spec fn spec_value(&self) -> u64 {
        self.0.val->UInt_0
    }

    pub closed spec fn spec_default(&self) -> u64 {
        self.0.default_val->UInt_0
    }

    pub closed spec fn spec_is_set(&self) -> bool {
        self.0.set
    }

    /// An option that is not set, with value and default `default`.
    pub fn new(default: u64, name: &'static str, desc: &'static str) -> (r: Self)
        ensures
            r.spec_name() == name@,
            r.spec_desc() == desc@,
            r.spec_value() == default,
            r.spec_default() == default,
            !r.spec_is_set(),
    {
        UInt(
            option {
                name,
                set: false,
                default_val: OptionValue::UInt(default),
                val: OptionValue::UInt(default),
                description: desc,
            },
        )
    }

    /// An option that is not set, with value and default 0.
    pub fn defaulted(name: &'static str, desc: &'static str) -> (r: Self)
        ensures
            r.spec_name() == name@,
            r.spec_desc() == desc@,
            r.spec_value() == 0,
            r.spec_default() == 0,
            !r.spec_is_set(),
    {
        Self::new(0, name, desc)
    }

    pub fn name(&self) -> (r: &'static str)
        ensures
            r@ == self.spec_name(),
    {
        self.0.name
    }

    pub fn desc(&self) -> (r: &'static str)
        ensures
            r@ == self.spec_desc(),
    {
        self.0.description
    }

    /// The current value.
    pub fn value(&self) -> (r: u64)
        ensures
            r == self.spec_value(),
    {
        proof {
            use_type_invariant(self);
        }
        match self.0.val {
            OptionValue::UInt(v) => v,
            _ => 0,
        }
    }

    /// The default value.
    pub fn default(&self) -> (r: u64)
        ensures
            r == self.spec_default(),
    {
        proof {
            use_type_invariant(self);
        }
        match self.0.default_val {
            OptionValue::UInt(v) => v,
            _ => 0,
        }
    }

    /// Whether the value was set from outside.
    pub fn is_set(&self) -> (r: bool)
        ensures
            r == self.spec_is_set(),
    {
        self.0.set
    }

    /// Overwrites the current value and marks the option as set.
    pub fn set_value(&mut self, val: u64)
        ensures
            final(self).spec_value() == val,
            final(self).spec_is_set(),
            final(self).spec_default() == old(self).spec_default(),
            final(self).spec_name() == old(self).spec_name(),
            final(self).spec_desc() == old(self).spec_desc(),
    {
        proof {
            use_type_invariant(&*self);
        }
        let opt = option { set: true, val: OptionValue::UInt(val), ..self.0 };
        *self = UInt(opt);
    }

    /// The option in the C library's layout.
    pub fn as_option(&self) -> (r: option)
        ensures
            r.val == OptionValue::UInt(self.spec_value()),
            r.default_val == OptionValue::UInt(self.spec_default()),
            r.set == self.spec_is_set(),
            r.name@ == self.spec_name(),
            r.description@ == self.spec_desc(),
    {
        proof {
            use_type_invariant(self);
        }
        self.0
    }
}

/// A string option; `None` stands for no string.
pub struct Str(option);

impl Sealed for Str {
}

impl Str {
    #[verifier::type_invariant]
    spec fn inv(&self) -> bool {
        self.0.val is Str && self.0.default_val is Str
    }

    pub closed spec fn spec_name(&self) -> Seq<char> {
        self.0.name@
    }

    pub closed spec fn spec_desc(&self) -> Seq<char> {
        self.0.description@
    }

    pub closed spec fn spec_value(&self) -> Option<&'static str> {
        self.0.val->Str_0
    }

    pub closed spec fn spec_default(&self) -> Option<&'static str> {
        self.0.default_val->Str_0
    }

    pub closed spec fn spec_is_set(&self) -> bool {
        self.0.set
    }

    /// An option that is not set, with value and default `default`.
    pub fn new(default: Option<&'static str>, name: &'static str, desc: &'static str) -> (r: Self)
        ensures
            r.spec_name() == name@,
            r.spec_desc() == desc@,
            r.spec_value() == default,
            r.spec_default() == default,
            !r.spec_is_set(),
    {
        Str(
            option {
                name,
                set: false,
                default_val: OptionValue::Str(default),
                val: OptionValue::Str(default),
                description: desc,
            },
        )
    }

    /// An option that is not set, with value and default `None`.
    pub fn defaulted(name: &'static str, desc: &'static str) -> (r: Self)
        ensures
            r.spec_name() == name@,
            r.spec_desc() == desc@,
            r.spec_value() is None,
            r.spec_default() is None,
            !r.spec_is_set(),
    {
        Self::new(None, name, desc)
    }

    pub fn name(&self) -> (r: &'static str)
        ensures
            r@ == self.spec_name(),
    {
        self.0.name
    }

    pub fn desc(&self) -> (r: &'static str)
        ensures
            r@ == self.spec_desc(),
    {
        self.0.description
    }

    /// The current value.
    pub fn value(&self) -> (r: Option<&'static str>)
        ensures
            r == self.spec_value(),
    {
        proof {
            use_type_invariant(self);
        }
        match self.0.val {
            OptionValue::Str(v) => v,
            _ => None,
        }
    }

    /// The default value.
    pub fn default(&self) -> (r: Option<&'static str>)
        ensures
            r == self.spec_default(),
    {
        proof {
            use_type_invariant(self);
        }
        match self.0.default_val {
            OptionValue::Str(v) => v,
            _ => None,
        }
    }

    /// Whether the value was set from outside.
    pub fn is_set(&self) -> (r: bool)
        ensures
            r == self.spec_is_set(),
    {
        self.0.set
    }

    /// Overwrites the current value and marks the option as set.
    pub fn set_value(&mut self, val: Option<&'static str>)
        ensures
            final(self).spec_value() == val,
            final(self).spec_is_set(),
            final(self).spec_default() == old(self).spec_default(),
            final(self).spec_name() == old(self).spec_name(),
            final(self).spec_desc() == old(self).spec_desc(),
    {
        proof {
            use_type_invariant(&*self);
        }
        let opt = option { set: true, val: OptionValue::Str(val), ..self.0 };
        *self = Str(opt);
    }

    /// The option in the C library's layout.
    pub fn as_option(&self) -> (r: option)
        ensures
            r.val == OptionValue::Str(self.spec_value()),
            r.default_val == OptionValue::Str(self.spec_default()),
            r.set == self.spec_is_set(),
            r.name@ == self.spec_name(),
            r.description@ == self.spec_desc(),
    {
        proof {
            use_type_invariant(self);
        }
        self.0
    }
}

} // verus!
