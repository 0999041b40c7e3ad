//! Constraint providers: functions that take a constraint factory and return
//! the constraints of a problem. The library keeps a provider's name; the
//! function itself stays with the host.

use vstd::prelude::*;
use vstd::string::*;

verus! {

broadcast use vstd::string::group_string_axioms;

/// The name a provider gets when its function has none.
pub open spec fn default_provider_name() -> Seq<char> {
    "constraint_provider"@
}

/// Why a function cannot be a constraint provider.
#[derive(Debug, Clone, Copy, PartialEq, Eq, Structural)]
pub enum ProviderError {
    /// The decorated object cannot be called.
    NotCallable,
}

impl ProviderError {
    /// The error's message.
    pub fn message(&self) -> (res: String)
        ensures
            res@ == "constraint_provider decorator must be applied to a callable"@,
    {
        String::from_str("constraint_provider decorator must be applied to a callable")
    }
}

/// A constraint provider, known by its name.
#[derive(Debug, Clone)]
pub struct PyConstraintProvider {
    name: String,
}

impl PyConstraintProvider {
    /// The provider's name.
    pub closed spec fn name_view(&self) -> Seq<char> {
        self.name@
    }

    /// A provider with the given name.
    pub fn new(name: String) -> (res: Self)
        ensures
            res.name_view() == name@,
    {
        PyConstraintProvider { name }
    }

    /// The provider's name.
    pub fn name(&self) -> (res: &str)
        ensures
            res@ == self.name_view(),
    {
        self.name.as_str()
    }

    /// The provider's name.
    pub fn provider_name(&self) -> (res: &str)
        ensures
            res@ == self.name_view(),
    {
        self.name.as_str()
    }

    /// `ConstraintProvider(name='..')`.
    pub fn repr(&self) -> (res: String)
        ensures
            res@ == "ConstraintProvider(name='"@ + self.name_view() + "')"@,
    {
        proof {
            reveal_strlit("ConstraintProvider(name='");
            reveal_strlit("')");
        }
        let mut s = String::from_str("ConstraintProvider(name='");
        s.append(self.name.as_str());
        s.append("')");
        s
    }
}

/// The decorator's decision on a function: a callable becomes a provider
/// named after the function (or `constraint_provider` when it has no name);
/// anything else is refused.
pub fn constraint_provider(function_name: Option<String>, is_callable: bool) -> (res: Result<
    PyConstraintProvider,
    ProviderError,
>)
    ensures
        !is_callable ==> res == Err::<PyConstraintProvider, ProviderError>(ProviderError::NotCallable),
        is_callable ==> res is Ok && res->Ok_0.name_view() == match function_name {
            Some(n) => n@,
            None => default_provider_name(),
        },
{
    proof { reveal_strlit("constraint_provider"); }
    let name = match function_name {
        Some(n) => n,
        None => String::from_str("constraint_provider"),
    };
    if !is_callable {
        return Err(ProviderError::NotCallable);
    }
    Ok(PyConstraintProvider::new(name))
}

} // verus!
