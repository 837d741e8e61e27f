//! The three dependencies and what a call to one of them can come back with.

use vstd::prelude::*;

use crate::service::Deps;

verus! {

/// One of the services that an evaluation calls.
#[derive(Clone, Copy, PartialEq, Eq, Debug, Structural)]
pub enum Dependency {
    Gcd,
    Divide,
    Multiply,
}

impl Dependency {
    /// The service name by which a reply names the dependency.
    pub open spec fn spec_name(self) -> Seq<char> {
        match self {
            Dependency::Gcd => "srvcs-gcd"@,
            Dependency::Divide => "srvcs-divide"@,
            Dependency::Multiply => "srvcs-multiply"@,
        }
    }

    /// The service name by which a reply names the dependency.
    pub fn name(&self) -> (name: &'static str)
        ensures
            name@ == self.spec_name(),
    {
        match self {
            Dependency::Gcd => "srvcs-gcd",
            Dependency::Divide => "srvcs-divide",
            Dependency::Multiply => "srvcs-multiply",
        }
    }
}

impl Deps {
    /// The base URL at which `dependency` is reached.
    pub open spec fn spec_url_for(self, dependency: Dependency) -> Seq<char> {
        match dependency {
            Dependency::Gcd => self.gcd_url@,
            Dependency::Divide => self.divide_url@,
            Dependency::Multiply => self.multiply_url@,
        }
    }

    /// The base URL at which `dependency` is reached.
    pub fn url_for(&self, dependency: Dependency) -> (url: &str)
        ensures
            url@ == self.spec_url_for(dependency),
            dependency == Dependency::Gcd ==> url@ == self.gcd_url@,
            dependency == Dependency::Divide ==> url@ == self.divide_url@,
            dependency == Dependency::Multiply ==> url@ == self.multiply_url@,
    {
        match dependency {
            Dependency::Gcd => self.gcd_url.as_str(),
            Dependency::Divide => self.divide_url.as_str(),
            Dependency::Multiply => self.multiply_url.as_str(),
        }
    }
}

/// Each dependency is called at its own configured base URL, whatever the
/// three URLs are: `srvcs-gcd` at `gcd_url`, `srvcs-divide` at `divide_url`,
/// `srvcs-multiply` at `multiply_url`.
pub proof fn lemma_each_dependency_called_at_its_url(deps: Deps)
    ensures
        deps.spec_url_for(Dependency::Gcd) == deps.gcd_url@,
        deps.spec_url_for(Dependency::Divide) == deps.divide_url@,
        deps.spec_url_for(Dependency::Multiply) == deps.multiply_url@,
{
}

/// What one call to a dependency came back with.
#[derive(Clone, PartialEq, Eq, Debug)]
pub enum CallOutcome {
    /// The dependency could not be reached.
    Unreachable,
    /// The dependency answered with this status and body.
    Answered { status: u16, body: Vec<u8> },
}

} // verus!
