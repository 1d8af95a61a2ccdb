//! Borrowed argument lists of script methods, with a cursor that hands the arguments out
//! one by one and reports what went wrong when an argument is missing, cannot be converted,
//! or is left over.

use std::marker::PhantomData;
use vstd::prelude::*;
use vstd::slice::slice_subrange;

use crate::text::{comma_joined, decimal, decimal_chars, push_all, push_comma_joined, push_str, string_of, string_views};

verus! {

/// Interface to a list of borrowed method arguments with a convenient interface
/// for common operations with them.
///
/// `V` is the type of the engine values the arguments are made of.
pub struct Varargs<'a, V> {
    idx: usize,
    args: &'a [V],
    pos: usize,
}

/// Builder for providing additional argument information for error reporting.
pub struct ArgBuilder<'r, 'a, V, T> {
    /// The argument list the builder reads from.
    pub args: &'r mut Varargs<'a, V>,
    /// The name given to the argument, used in error reports.
    pub name: Option<&'r str>,
    /// The type name given to the argument, used in error reports.
    pub ty: Option<&'r str>,
    pub _marker: PhantomData<T>,
}

/// What went wrong while reading the arguments of a method.
#[derive(Debug)]
pub enum ArgumentError<'a, V, E> {
    /// A non-optional argument was not given.
    Missing { idx: usize, name: Option<&'a str> },
    /// An argument was given, but the conversion to the wanted type failed with `err`.
    /// `ty` is the type name given through [`ArgBuilder::with_type_name`], or `None` when
    /// the wanted type is to be reported by its Rust name.
    CannotConvert { idx: usize, name: Option<&'a str>, ty: Option<&'a str>, value: &'a V, err: E },
    /// More arguments were given than the method reads.
    ExcessArguments { rest: &'a [V] },
}

impl<'a, V> Varargs<'a, V> {
    #[verifier::type_invariant]
    spec fn inv(self) -> bool {
        &&& self.idx <= self.pos
        &&& self.pos <= self.args@.len()
    }

    /// The arguments that have not been read yet, in order.
    pub closed spec fn rest(self) -> Seq<V> {
        self.args@.subrange(self.pos as int, self.args@.len() as int)
    }

    /// The position reported for the next argument read through [`Varargs::read`].
    pub closed spec fn index(self) -> nat {
        self.idx as nat
    }

    /// Creates the cursor over a list of arguments, starting at the first one.
    pub fn from_sys(args: &'a [V]) -> (r: Self)
        ensures
            r.rest() == args@,
            r.index() == 0,
    {
        let r = Varargs { idx: 0, args, pos: 0 };
        assert(r.rest() =~= args@);
        r
    }

    /// Returns the amount of arguments left.
    pub fn len(&self) -> (r: usize)
        ensures
            r == self.rest().len(),
    {
        proof {
            use_type_invariant(self);
        }
        self.args.len() - self.pos
    }

    /// Returns `true` if no argument is left.
    pub fn is_empty(&self) -> (r: bool)
        ensures
            r == (self.rest().len() == 0),
    {
        self.len() == 0
    }

    /// Returns a builder for reading the next argument, that can be used to refine
    /// the error message on failure.
    pub fn read<'r, T>(&'r mut self) -> (b: ArgBuilder<'r, 'a, V, T>)
        ensures
            *b.args == *old(self),
            *final(b.args) == *final(self),
            b.name == None::<&'r str>,
            b.ty == None::<&'r str>,
    {
        ArgBuilder { args: self, name: None, ty: None, _marker: PhantomData }
    }

    /// Returns the remaining arguments as a slice.
    pub fn as_slice(&self) -> (r: &'a [V])
        ensures
            r@ == self.rest(),
    {
        proof {
            use_type_invariant(self);
        }
        slice_subrange(self.args, self.pos, self.args.len())
    }

    /// Discards the rest of the arguments, and returns an error if there is any.
    pub fn done<E>(self) -> (r: Result<(), ArgumentError<'a, V, E>>)
        ensures
            r is Ok <==> self.rest().len() == 0,
            r matches Err(e) ==> (e matches ArgumentError::ExcessArguments { rest } && rest@
                == self.rest()),
    {
        if self.is_empty() {
            Ok(())
        } else {
            Err(ArgumentError::ExcessArguments { rest: self.as_slice() })
        }
    }

    /// Takes the next argument without converting it. This does not advance the position
    /// reported in errors of later reads.
    pub fn next(&mut self) -> (r: Option<&'a V>)
        ensures
            old(self).rest().len() == 0 ==> r is None && *final(self) == *old(self),
            old(self).rest().len() > 0 ==> r == Some(&old(self).rest()[0]) && final(self).rest()
                == old(self).rest().drop_first() && final(self).index() == old(self).index(),
    {
        proof {
            use_type_invariant(&*self);
        }
        if self.pos < self.args.len() {
            let item = &self.args[self.pos];
            self.pos = self.pos + 1;
            proof {
                assert(self.rest() =~= old(self).rest().drop_first());
            }
            Some(item)
        } else {
            None
        }
    }
}

impl<'r, 'a, V, T> ArgBuilder<'r, 'a, V, T> {
    /// Provides a name for this argument. If an old name is already set, it is
    /// silently replaced.
    pub fn with_name(self, name: &'r str) -> (r: Self)
        ensures
            r.name == Some(name),
            r.ty == self.ty,
            *r.args == *old(self.args),
            *final(r.args) == *final(self.args),
    {
        ArgBuilder { args: self.args, name: Some(name), ty: self.ty, _marker: PhantomData }
    }

    /// Provides a more readable type name for this argument. If an old name is
    /// already set, it is silently replaced.
    pub fn with_type_name(self, ty: &'r str) -> (r: Self)
        ensures
            r.ty == Some(ty),
            r.name == self.name,
            *r.args == *old(self.args),
            *final(r.args) == *final(self.args),
    {
        ArgBuilder { args: self.args, name: self.name, ty: Some(ty), _marker: PhantomData }
    }
}

/// What reading an argument gives back, from the result of converting it: the converted
/// value, or the error that names the argument and carries the value that did not convert.
pub open spec fn conversion_outcome<'r, V, T, E>(
    res: Result<T, E>,
    idx: usize,
    name: Option<&'r str>,
    ty: Option<&'r str>,
    value: &'r V,
) -> Result<Option<T>, ArgumentError<'r, V, E>> {
    match res {
        Ok(v) => Ok(Some(v)),
        Err(err) => Err(ArgumentError::CannotConvert { idx, name, ty, value, err }),
    }
}

/// [`conversion_outcome`] for an argument that is not optional.
pub open spec fn required_outcome<'r, V, T, E>(
    res: Result<T, E>,
    idx: usize,
    name: Option<&'r str>,
    ty: Option<&'r str>,
    value: &'r V,
) -> Result<T, ArgumentError<'r, V, E>> {
    match res {
        Ok(v) => Ok(v),
        Err(err) => Err(ArgumentError::CannotConvert { idx, name, ty, value, err }),
    }
}

impl<'r, 'a, V, T> ArgBuilder<'r, 'a, V, T> {
    /// Gets the argument as optional, converting it with `convert`.
    ///
    /// # Errors
    ///
    /// If the argument is present, but cannot be converted to the desired type.
    pub fn get_optional<E, F>(self, convert: F) -> (r: Result<Option<T>, ArgumentError<'r, V, E>>) where
        F: FnOnce(&'a V) -> Result<T, E>,

        requires
            old(self.args).rest().len() > 0 ==> call_requires(
                convert,
                (&old(self.args).rest()[0],),
            ),
        ensures
            old(self.args).rest().len() == 0 ==> r == Ok::<Option<T>, ArgumentError<'r, V, E>>(
                None,
            ) && *final(self.args) == *old(self.args),
            old(self.args).rest().len() > 0 ==> {
                &&& final(self.args).rest() == old(self.args).rest().drop_first()
                &&& final(self.args).index() == old(self.args).index() + 1
                &&& exists|res: Result<T, E>|
                    {
                        &&& call_ensures(convert, (&old(self.args).rest()[0],), res)
                        &&& r == conversion_outcome(
                            res,
                            old(self.args).index() as usize,
                            self.name,
                            self.ty,
                            &old(self.args).rest()[0],
                        )
                        &&& (r is Ok <==> res is Ok)
                        &&& (res matches Ok(v) ==> r == Ok::<
                            Option<T>,
                            ArgumentError<'r, V, E>,
                        >(Some(v)))
                        &&& (res matches Err(err) ==> r == Err::<
                            Option<T>,
                            ArgumentError<'r, V, E>,
                        >(
                            ArgumentError::CannotConvert {
                                idx: old(self.args).index() as usize,
                                name: self.name,
                                ty: self.ty,
                                value: &old(self.args).rest()[0],
                                err,
                            },
                        ))
                    }
            },
    {
        let ArgBuilder { args, name, ty, .. } = self;
        proof {
            use_type_invariant(&*args);
        }
        let idx = args.idx;
        if args.pos < args.args.len() {
            let arg = &args.args[args.pos];
            args.pos = args.pos + 1;
            args.idx = args.idx + 1;
            proof {
                assert(args.rest() =~= old(self.args).rest().drop_first());
            }
            let res = convert(arg);
            match res {
                Ok(v) => Ok(Some(v)),
                Err(err) => Err(ArgumentError::CannotConvert { idx, name, ty, value: arg, err }),
            }
        } else {
            Ok(None)
        }
    }

    /// Gets the converted argument value.
    ///
    /// # Errors
    ///
    /// If the argument is missing, or cannot be converted to the desired type.
    pub fn get<E, F>(self, convert: F) -> (r: Result<T, ArgumentError<'r, V, E>>) where
        F: FnOnce(&'a V) -> Result<T, E>,

        requires
            old(self.args).rest().len() > 0 ==> call_requires(
                convert,
                (&old(self.args).rest()[0],),
            ),
        ensures
            old(self.args).rest().len() == 0 ==> r == Err::<T, ArgumentError<'r, V, E>>(
                ArgumentError::Missing { idx: old(self.args).index() as usize, name: self.name },
            ) && *final(self.args) == *old(self.args),
            old(self.args).rest().len() > 0 ==> {
                &&& final(self.args).rest() == old(self.args).rest().drop_first()
                &&& final(self.args).index() == old(self.args).index() + 1
                &&& exists|res: Result<T, E>|
                    {
                        &&& call_ensures(convert, (&old(self.args).rest()[0],), res)
                        &&& r == required_outcome(
                            res,
                            old(self.args).index() as usize,
                            self.name,
                            self.ty,
                            &old(self.args).rest()[0],
                        )
                        &&& (r is Ok <==> res is Ok)
                        &&& (res matches Ok(v) ==> r == Ok::<T, ArgumentError<'r, V, E>>(v))
                        &&& (res matches Err(err) ==> r == Err::<T, ArgumentError<'r, V, E>>(
                            ArgumentError::CannotConvert {
                                idx: old(self.args).index() as usize,
                                name: self.name,
                                ty: self.ty,
                                value: &old(self.args).rest()[0],
                                err,
                            },
                        ))
                    }
            },
    {
        let name = self.name;
        let idx = self.args.idx;
        match self.get_optional(convert) {
            Ok(Some(v)) => Ok(v),
            Ok(None) => Err(ArgumentError::Missing { idx, name }),
            Err(e) => Err(e),
        }
    }
}


/// The text of an argument error, as it is displayed. Where no type name was given, the
/// wanted type is shown as `type_text`; `value_texts` are the debug renderings of the values
/// the error holds (the value that could not be converted, or the excess arguments) and
/// `err_text` is the rendering of the conversion error.
pub open spec fn argument_error_text<'a, V, E>(
    e: ArgumentError<'a, V, E>,
    type_text: Seq<char>,
    value_texts: Seq<Seq<char>>,
    err_text: Seq<char>,
) -> Seq<char> {
    match e {
        ArgumentError::Missing { idx, name } => match name {
            Some(n) => "missing non-optional parameter `"@ + n@ + "` (#"@ + decimal(idx as nat)
                + ")"@,
            None => "missing non-optional parameter #"@ + decimal(idx as nat),
        },
        ArgumentError::CannotConvert { idx, name, ty, .. } => {
            let shown_ty = match ty {
                Some(t) => t@,
                None => type_text,
            };
            let tail = ") to "@ + shown_ty + ": "@ + err_text
                + " (non-primitive types may impose structural checks)"@;
            match name {
                Some(n) => "cannot convert argument `"@ + n@ + "` (#"@ + decimal(idx as nat)
                    + ", "@ + value_texts[0] + tail,
                None => "cannot convert argument #"@ + decimal(idx as nat) + " ("@
                    + value_texts[0] + tail,
            }
        },
        ArgumentError::ExcessArguments { rest } => if rest@.len() > 1 {
            decimal(rest@.len()) + " excessive arguments are given: ["@ + comma_joined(
                value_texts,
            ) + "]"@
        } else {
            "an excessive argument is given: "@ + value_texts[0]
        },
    }
}

impl<'a, V, E> ArgumentError<'a, V, E> {
    /// Renders the error as it is displayed, such as ``missing non-optional parameter `name`
    /// (#2)``. The caller renders what only it can: the wanted type's name where no type name
    /// was given (`type_text`), the debug forms of the values the error holds (`value_texts`:
    /// the value that could not be converted, or each excess argument) and the conversion
    /// error (`err_text`).
    pub fn message(&self, type_text: &str, value_texts: &[String], err_text: &str) -> (r: String)
        requires
            self is CannotConvert ==> value_texts@.len() == 1,
            self matches ArgumentError::ExcessArguments { rest } ==> rest@.len() >= 1
                && value_texts@.len() == rest@.len(),
        ensures
            r@ == argument_error_text(*self, type_text@, string_views(value_texts@), err_text@),
    {
        let mut text: Vec<char> = Vec::new();
        match self {
            ArgumentError::Missing { idx, name } => {
                match name {
                    Some(n) => {
                        push_str(&mut text, "missing non-optional parameter `");
                        push_str(&mut text, n);
                        push_str(&mut text, "` (#");
                        let digits = decimal_chars(*idx as u64);
                        push_all(&mut text, digits.as_slice());
                        push_str(&mut text, ")");
                    },
                    None => {
                        push_str(&mut text, "missing non-optional parameter #");
                        let digits = decimal_chars(*idx as u64);
                        push_all(&mut text, digits.as_slice());
                    },
                }
            },
            ArgumentError::CannotConvert { idx, name, ty, .. } => {
                match name {
                    Some(n) => {
                        push_str(&mut text, "cannot convert argument `");
                        push_str(&mut text, n);
                        push_str(&mut text, "` (#");
                        let digits = decimal_chars(*idx as u64);
                        push_all(&mut text, digits.as_slice());
                        push_str(&mut text, ", ");
                    },
                    None => {
                        push_str(&mut text, "cannot convert argument #");
                        let digits = decimal_chars(*idx as u64);
                        push_all(&mut text, digits.as_slice());
                        push_str(&mut text, " (");
                    },
                }
                push_str(&mut text, value_texts[0].as_str());
                push_str(&mut text, ") to ");
                match ty {
                    Some(t) => push_str(&mut text, t),
                    None => push_str(&mut text, type_text),
                }
                push_str(&mut text, ": ");
                push_str(&mut text, err_text);
                push_str(&mut text, " (non-primitive types may impose structural checks)");
            },
            ArgumentError::ExcessArguments { rest } => {
                if rest.len() > 1 {
                    let digits = decimal_chars(rest.len() as u64);
                    push_all(&mut text, digits.as_slice());
                    push_str(&mut text, " excessive arguments are given: [");
                    push_comma_joined(&mut text, value_texts);
                    push_str(&mut text, "]");
                } else {
                    push_str(&mut text, "an excessive argument is given: ");
                    push_str(&mut text, value_texts[0].as_str());
                }
            },
        }
        proof {
            assert(text@ =~= argument_error_text(
                *self,
                type_text@,
                string_views(value_texts@),
                err_text@,
            ));
        }
        string_of(text.as_slice())
    }
}

} // verus!
