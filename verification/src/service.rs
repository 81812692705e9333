//! The services that are told apart, and the decision between them.

use crate::env::{Env, Vars};
use vstd::prelude::*;

verus! {

/// A continuous-integration service, or `Unknown` where none is recognised.
#[derive(PartialEq, Eq, Structural, Debug, Clone, Copy)]
pub enum CiService {
    Travis,
    Circle,
    Unknown,
}

/// The service that the variables `vars` speak for. Only whether the two
/// marker variables are set counts, not what they hold. Exactly one of them
/// names its service; both together name none, as neither does.
pub open spec fn detect(vars: Vars) -> CiService {
    let travis = vars.contains_key("TRAVIS"@);
    let circle = vars.contains_key("CIRCLECI"@);
    if travis && !circle {
        CiService::Travis
    } else if circle && !travis {
        CiService::Circle
    } else {
        CiService::Unknown
    }
}

/// The decision read as a table: Travis exactly where only `TRAVIS` is set,
/// Circle exactly where only `CIRCLECI` is set, and Unknown exactly where
/// both are set or neither is.
pub proof fn lemma_detect_table(vars: Vars)
    ensures
        detect(vars) == CiService::Travis <==> vars.contains_key("TRAVIS"@) && !vars.contains_key(
            "CIRCLECI"@,
        ),
        detect(vars) == CiService::Circle <==> !vars.contains_key("TRAVIS"@) && vars.contains_key(
            "CIRCLECI"@,
        ),
        detect(vars) == CiService::Unknown <==> vars.contains_key("TRAVIS"@) == vars.contains_key(
            "CIRCLECI"@,
        ),
{
}

/// Whether the variables say that some continuous-integration service is at
/// work, recognised or not: `CI` or `CONTINUOUS_INTEGRATION` is set. This has
/// no part in telling the services apart.
pub open spec fn any_ci(vars: Vars) -> bool {
    vars.contains_key("CI"@) || vars.contains_key("CONTINUOUS_INTEGRATION"@)
}

/// Whether `env` says that some continuous-integration service is at work,
/// recognised or not.
pub fn is_ci(env: &Env) -> (yes: bool)
    ensures
        yes == any_ci(env@),
{
    env.contains("CI") || env.contains("CONTINUOUS_INTEGRATION")
}

impl CiService {
    /// The service's name as text.
    pub open spec fn spec_name(self) -> Seq<char> {
        match self {
            CiService::Travis => "Travis"@,
            CiService::Circle => "Circle"@,
            CiService::Unknown => "Unknown"@,
        }
    }

    /// The service's name as text.
    pub fn name(self) -> (text: &'static str)
        ensures
            text@ == self.spec_name(),
    {
        match self {
            CiService::Travis => "Travis",
            CiService::Circle => "Circle",
            CiService::Unknown => "Unknown",
        }
    }
}

} // verus!
