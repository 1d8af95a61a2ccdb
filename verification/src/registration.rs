//! The decisions made while script classes are registered with the engine and while the
//! engine calls back into them: whether a registration goes on, what is logged when a
//! constructor or destructor cannot do its work, and what a callback hands back to the
//! engine when the user's function failed or panicked.

use vstd::prelude::*;

use crate::api::{panic_message, panic_text, PanicPayload};
use crate::text::{push_str, string_of};

verus! {

/// What the class registry answered to a new registration: `Ok(true)` if the class is new,
/// `Ok(false)` if it is already registered under the same name, `Err` with the rendered
/// error if the registration conflicts with an earlier one.
pub type RegistryAnswer = Result<bool, String>;

/// The next step of a class registration.
pub enum RegistrationStep {
    /// Register the class with the engine.
    Proceed,
    /// The class is already registered: do nothing.
    Skip,
    /// The registration is ignored; log this error.
    Ignore(String),
}

/// The text logged when a registration is ignored because of `error`.
pub open spec fn ignored_registration_text(error: Seq<char>) -> Seq<char> {
    "gdnative-core: ignoring new registration: "@ + error
}

/// Decides the next step of a class registration from the registry's answer.
pub fn registration_step(answer: &RegistryAnswer) -> (r: RegistrationStep)
    ensures
        answer matches Ok(fresh) ==> if *fresh {
            r is Proceed
        } else {
            r is Skip
        },
        answer matches Err(e) ==> r matches RegistrationStep::Ignore(m) && m@
            == ignored_registration_text(e@),
{
    match answer {
        Ok(true) => RegistrationStep::Proceed,
        Ok(false) => RegistrationStep::Skip,
        Err(e) => {
            let mut text: Vec<char> = Vec::new();
            push_str(&mut text, "gdnative-core: ignoring new registration: ");
            push_str(&mut text, e.as_str());
            RegistrationStep::Ignore(string_of(text.as_slice()))
        },
    }
}

/// Why the constructor of a script instance could not make the instance.
#[derive(Clone, Copy, Debug, PartialEq, Eq, Structural)]
pub enum ConstructFailure {
    /// The engine passed no owner object.
    NullOwner,
    /// The owner object is not of the class's base class.
    IncompatibleOwner,
    /// The user's constructor panicked.
    Panicked,
}

/// The text logged when the constructor of `class_name`, whose base class is `base_name`,
/// fails.
pub open spec fn construct_error_text(
    class_name: Seq<char>,
    base_name: Seq<char>,
    failure: ConstructFailure,
) -> Seq<char> {
    "gdnative-core: error constructing "@ + class_name + match failure {
        ConstructFailure::NullOwner => ": owner pointer is null"@,
        ConstructFailure::IncompatibleOwner => ": incompatible owner type, expecting "@
            + base_name,
        ConstructFailure::Panicked => ": constructor panicked"@,
    }
}

/// Renders the error logged when the constructor of `class_name` fails.
pub fn construct_error_message(class_name: &str, base_name: &str, failure: ConstructFailure) -> (r:
    String)
    ensures
        r@ == construct_error_text(class_name@, base_name@, failure),
{
    let mut text: Vec<char> = Vec::new();
    push_str(&mut text, "gdnative-core: error constructing ");
    push_str(&mut text, class_name);
    match failure {
        ConstructFailure::NullOwner => push_str(&mut text, ": owner pointer is null"),
        ConstructFailure::IncompatibleOwner => {
            push_str(&mut text, ": incompatible owner type, expecting ");
            push_str(&mut text, base_name);
        },
        ConstructFailure::Panicked => push_str(&mut text, ": constructor panicked"),
    }
    string_of(text.as_slice())
}

/// The text logged when the destructor of `class_name` is given no instance.
pub open spec fn null_user_data_text(class_name: Seq<char>) -> Seq<char> {
    "gdnative-core: user data pointer for "@ + class_name + " is null (did the constructor fail?)"@
}

/// Renders the error logged when the destructor of `class_name` is given no instance.
pub fn null_user_data_message(class_name: &str) -> (r: String)
    ensures
        r@ == null_user_data_text(class_name@),
{
    let mut text: Vec<char> = Vec::new();
    push_str(&mut text, "gdnative-core: user data pointer for ");
    push_str(&mut text, class_name);
    push_str(&mut text, " is null (did the constructor fail?)");
    string_of(text.as_slice())
}

/// One thing that a class registration does, in the order in which it is done.
pub enum RegistrationAction {
    /// Log this error; the registration stops here.
    LogError(String),
    /// Register the class with the engine as a tool class, which also runs in the editor.
    RegisterToolClass,
    /// Register the class with the engine as a plain class.
    RegisterClass,
    /// Give the class its type tag.
    SetTypeTag,
    /// Register the class's properties.
    RegisterProperties,
    /// Register the class's methods.
    RegisterMethods,
    /// Hand the class builder to the caller's function.
    CallUserBuilder,
}

/// The actions of a class registration, from the registry's answer and whether the class
/// is a tool class: none for a class already registered, the logged error for a refused
/// registration, and otherwise the registration with the engine, the type tag, the
/// properties, the methods and the caller's function, in this order.
pub fn registration_actions(answer: &RegistryAnswer, is_tool: bool) -> (r: Vec<RegistrationAction>)
    ensures
        answer == Ok::<bool, String>(false) ==> r@.len() == 0,
        answer matches Err(e) ==> r@.len() == 1,
        answer matches Err(e) ==> (r@[0] matches RegistrationAction::LogError(m) && m@
            == ignored_registration_text(e@)),
        answer == Ok::<bool, String>(true) ==> {
            &&& r@.len() == 5
            &&& if is_tool {
                r@[0] is RegisterToolClass
            } else {
                r@[0] is RegisterClass
            }
            &&& r@[1] is SetTypeTag
            &&& r@[2] is RegisterProperties
            &&& r@[3] is RegisterMethods
            &&& r@[4] is CallUserBuilder
        },
{
    let mut actions: Vec<RegistrationAction> = Vec::new();
    match registration_step(answer) {
        RegistrationStep::Skip => {},
        RegistrationStep::Ignore(m) => {
            actions.push(RegistrationAction::LogError(m));
        },
        RegistrationStep::Proceed => {
            if is_tool {
                actions.push(RegistrationAction::RegisterToolClass);
            } else {
                actions.push(RegistrationAction::RegisterClass);
            }
            actions.push(RegistrationAction::SetTypeTag);
            actions.push(RegistrationAction::RegisterProperties);
            actions.push(RegistrationAction::RegisterMethods);
            actions.push(RegistrationAction::CallUserBuilder);
        },
    }
    actions
}

/// How far the construction of a script instance has come: the user's constructor has not
/// run yet, or it made this value, or it panicked.
pub enum ConstructOutcome<T> {
    Pending,
    Made(T),
    Panicked(PanicPayload),
}

/// The next step of the constructor of a script instance.
pub enum ConstructStep<T> {
    /// Log these errors and hand the engine no instance.
    Fail(Vec<String>),
    /// Run the user's constructor on the owner.
    RunConstructor,
    /// Wrap this value as the instance's user data and hand it to the engine.
    Wrap(T),
}

/// Decides the next step of the constructor of `class_name`, whose base class is
/// `base_name`: the owner object must be given and of the base class before the user's
/// constructor runs, and a panic of that constructor gives no instance.
pub fn construct_step<T>(
    class_name: &str,
    base_name: &str,
    owner_null: bool,
    owner_compatible: bool,
    outcome: ConstructOutcome<T>,
) -> (r: ConstructStep<T>)
    ensures
        owner_null ==> (r matches ConstructStep::Fail(logs) && crate::text::string_views(logs@)
            == seq![construct_error_text(class_name@, base_name@, ConstructFailure::NullOwner)]),
        !owner_null && !owner_compatible ==> (r matches ConstructStep::Fail(logs)
            && crate::text::string_views(logs@) == seq![
            construct_error_text(class_name@, base_name@, ConstructFailure::IncompatibleOwner),
        ]),
        !owner_null && owner_compatible ==> match outcome {
            ConstructOutcome::Pending => r is RunConstructor,
            ConstructOutcome::Made(v) => r == ConstructStep::Wrap(v),
            ConstructOutcome::Panicked(p) => r matches ConstructStep::Fail(logs)
                && crate::text::string_views(logs@) == seq![
                construct_error_text(class_name@, base_name@, ConstructFailure::Panicked),
                panic_text(p),
            ],
        },
{
    let failure = if owner_null {
        ConstructFailure::NullOwner
    } else if !owner_compatible {
        ConstructFailure::IncompatibleOwner
    } else {
        match outcome {
            ConstructOutcome::Pending => {
                return ConstructStep::RunConstructor;
            },
            ConstructOutcome::Made(v) => {
                return ConstructStep::Wrap(v);
            },
            ConstructOutcome::Panicked(p) => {
                let mut logs: Vec<String> = Vec::new();
                logs.push(construct_error_message(class_name, base_name, ConstructFailure::Panicked));
                logs.push(panic_message(&p));
                proof {
                    assert(crate::text::string_views(logs@) =~= seq![
                        construct_error_text(class_name@, base_name@, ConstructFailure::Panicked),
                        panic_text(p),
                    ]);
                }
                return ConstructStep::Fail(logs);
            },
        }
    };
    let mut logs: Vec<String> = Vec::new();
    logs.push(construct_error_message(class_name, base_name, failure));
    proof {
        assert(crate::text::string_views(logs@) =~= seq![
            construct_error_text(class_name@, base_name@, failure),
        ]);
    }
    ConstructStep::Fail(logs)
}

/// Decides what the destructor of `class_name` does: with no instance (the constructor
/// failed), it logs this error; otherwise (`None`) it drops the instance.
pub fn destroy_step(class_name: &str, user_data_null: bool) -> (r: Option<String>)
    ensures
        user_data_null ==> (r matches Some(m) && m@ == null_user_data_text(class_name@)),
        !user_data_null ==> r is None,
{
    if user_data_null {
        Some(null_user_data_message(class_name))
    } else {
        None
    }
}

/// How a user's function called back from the engine ended.
pub enum CallOutcome<T> {
    /// It returned this value.
    Returned(T),
    /// It returned an error, rendered in its debug form.
    Failed(String),
    /// It panicked with this payload.
    Panicked(PanicPayload),
}

/// The lines logged for a callback that ended with `outcome`; `panic_note` names what
/// panicked, such as `Method panicked`.
pub open spec fn settled_logs<T>(outcome: CallOutcome<T>, panic_note: Seq<char>) -> Seq<Seq<char>> {
    match outcome {
        CallOutcome::Returned(_) => Seq::empty(),
        CallOutcome::Failed(e) => seq![e@],
        CallOutcome::Panicked(p) => seq![panic_note, panic_text(p)],
    }
}

/// Settles a callback from the engine: the value the user's function returned, or
/// `fallback` (the engine's nil value) when it failed or panicked, together with the lines to
/// log, in order.
pub fn settle_call<T>(outcome: CallOutcome<T>, fallback: T, panic_note: &str) -> (r: (
    T,
    Vec<String>,
))
    ensures
        r.0 == (match outcome {
            CallOutcome::Returned(v) => v,
            _ => fallback,
        }),
        crate::text::string_views(r.1@) == settled_logs(outcome, panic_note@),
{
    match outcome {
        CallOutcome::Returned(v) => {
            let logs: Vec<String> = Vec::new();
            proof {
                assert(crate::text::string_views(logs@) =~= settled_logs(outcome, panic_note@));
            }
            (v, logs)
        },
        CallOutcome::Failed(e) => {
            let mut logs: Vec<String> = Vec::new();
            logs.push(e);
            proof {
                assert(crate::text::string_views(logs@) =~= settled_logs(outcome, panic_note@));
            }
            (fallback, logs)
        },
        CallOutcome::Panicked(p) => {
            let mut logs: Vec<String> = Vec::new();
            let mut note: Vec<char> = Vec::new();
            push_str(&mut note, panic_note);
            logs.push(string_of(note.as_slice()));
            logs.push(panic_message(&p));
            proof {
                assert(crate::text::string_views(logs@) =~= settled_logs(outcome, panic_note@));
            }
            (fallback, logs)
        },
    }
}

} // verus!
