//! The rules that the attributes `entry` and `interrupt` hold a function
//! to, stated over what they look at in its signature.

use vstd::prelude::*;

verus! {

/// What a function returns, as far as the attributes tell it apart.
#[derive(Copy, Clone, Debug, PartialEq, Eq, Structural)]
pub enum Output {
    /// Nothing is written after the parameters.
    Default,
    /// The empty tuple is written.
    Unit,
    /// The function never returns.
    Never,
    /// Any other type.
    Other,
}

/// What the attributes look at in the signature of a function.
#[derive(Copy, Clone, Debug, PartialEq, Eq, Structural)]
pub struct Signature {
    /// The function is `const`.
    pub is_const: bool,
    /// The function is `async`.
    pub is_async: bool,
    /// The function has no visibility of its own.
    pub is_private: bool,
    /// The function names an ABI.
    pub has_abi: bool,
    /// The number of generic parameters.
    pub generics: usize,
    /// The function has a `where` clause.
    pub has_where_clause: bool,
    /// The function is variadic.
    pub is_variadic: bool,
    /// The number of parameters.
    pub inputs: usize,
    /// What the function returns.
    pub output: Output,
}

/// One argument of the attribute `interrupt`.
#[derive(Copy, Clone, Debug, PartialEq, Eq, Structural)]
pub enum Argument {
    /// The name `core`.
    Core,
    /// Any other single name.
    OtherName,
    /// Anything that is not a single name.
    NotAName,
}

/// Why `entry` refuses a function.
#[derive(Copy, Clone, Debug, PartialEq, Eq, Structural)]
pub enum EntryError {
    /// The function takes arguments.
    Arguments,
    /// The function is not of the form `[unsafe] fn() -> !`.
    Signature,
    /// The attribute was given arguments.
    AttributeArguments,
}

/// Why `interrupt` refuses a function.
#[derive(Copy, Clone, Debug, PartialEq, Eq, Structural)]
pub enum InterruptError {
    /// The attribute was given more than one argument.
    AttributeArguments,
    /// The attribute was given a name other than `core`.
    NotCore,
    /// The function takes arguments.
    Arguments,
    /// The function is not of the form `[unsafe] fn() [-> !]`.
    Signature,
}

impl Signature {
    /// Whether the function is a plain one: not `const`, private, with the
    /// ABI of Rust, without generic parameters, `where` clause or variadic
    /// arguments.
    pub open spec fn plain(self) -> bool {
        &&& !self.is_const
        &&& self.is_private
        &&& !self.has_abi
        &&& self.generics == 0
        &&& !self.has_where_clause
        &&& !self.is_variadic
    }

    /// Whether the function can be the entry of the application: a plain
    /// function that is not `async` and never returns.
    pub open spec fn fits_entry(self) -> bool {
        &&& self.plain()
        &&& !self.is_async
        &&& self.output == Output::Never
    }

    /// Whether the function can be an interrupt handler: a plain function
    /// that returns nothing or never returns.
    pub open spec fn fits_interrupt(self) -> bool {
        &&& self.plain()
        &&& self.output != Output::Other
    }

    /// What `entry` says of a function with this signature, given whether
    /// the attribute has arguments. The parameters are looked at first, then
    /// the rest of the signature, then the arguments of the attribute.
    pub open spec fn entry_verdict(self, attribute_arguments: bool) -> Result<(), EntryError> {
        if self.inputs != 0 {
            Err(EntryError::Arguments)
        } else if !self.fits_entry() {
            Err(EntryError::Signature)
        } else if attribute_arguments {
            Err(EntryError::AttributeArguments)
        } else {
            Ok(())
        }
    }

    /// What `interrupt` says of a function with this signature, given the
    /// arguments of the attribute: whether the handler is one of a core
    /// interrupt, or why the function is refused. The arguments of the
    /// attribute are looked at first, then the parameters, then the rest of
    /// the signature. Without arguments the handler is one of an external
    /// interrupt; with one argument it is one of a core interrupt, unless the
    /// argument is a name other than `core`.
    pub open spec fn interrupt_verdict(self, arguments: Seq<Argument>) -> Result<
        bool,
        InterruptError,
    > {
        if arguments.len() > 1 {
            Err(InterruptError::AttributeArguments)
        } else if arguments.len() == 1 && arguments[0] == Argument::OtherName {
            Err(InterruptError::NotCore)
        } else if self.inputs != 0 {
            Err(InterruptError::Arguments)
        } else if !self.fits_interrupt() {
            Err(InterruptError::Signature)
        } else {
            Ok(arguments.len() == 1)
        }
    }
}

/// Checks a function that `entry` is put on.
pub fn check_entry(signature: &Signature, attribute_arguments: bool) -> (verdict: Result<
    (),
    EntryError,
>)
    ensures
        verdict == signature.entry_verdict(attribute_arguments),
{
    // check the function arguments
    if signature.inputs != 0 {
        return Err(EntryError::Arguments);
    }
    // check the function signature

    let valid_signature = !signature.is_const && !signature.is_async && signature.is_private
        && !signature.has_abi && signature.generics == 0 && !signature.has_where_clause
        && !signature.is_variadic && match signature.output {
        Output::Never => true,
        _ => false,
    };

    if !valid_signature {
        return Err(EntryError::Signature);
    }
    if attribute_arguments {
        return Err(EntryError::AttributeArguments);
    }
    Ok(())
}

/// Checks a function that `interrupt` is put on, and tells whether it
/// handles a core interrupt.
pub fn check_interrupt(signature: &Signature, arguments: &[Argument]) -> (verdict: Result<
    bool,
    InterruptError,
>)
    ensures
        verdict == signature.interrupt_verdict(arguments@),
{
    let is_core_irq = if arguments.len() == 0 {
        false
    } else {
        if arguments.len() != 1 {
            return Err(InterruptError::AttributeArguments);
        }
        match arguments[0] {
            Argument::OtherName => {
                return Err(InterruptError::NotCore);
            },
            _ => {},
        }
        true
    };

    // check the function arguments
    if signature.inputs != 0 {
        return Err(InterruptError::Arguments);
    }
    let valid_signature = !signature.is_const && signature.is_private && !signature.has_abi
        && signature.generics == 0 && !signature.has_where_clause && !signature.is_variadic
        && match signature.output {
        Output::Default => true,
        Output::Unit => true,
        Output::Never => true,
        Output::Other => false,
    } && signature.inputs <= 1;

    if !valid_signature {
        return Err(InterruptError::Signature);
    }
    Ok(is_core_irq)
}

} // verus!
