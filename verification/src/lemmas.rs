//! What holds of the accessors on every environment, stated over the
//! functions that their contracts use.

use crate::ci::Ci;
use crate::env::{read, Reading, Vars};
use crate::language::Language;
use crate::service::detect;
use vstd::prelude::*;

verus! {

/// A context is one of Travis or one of Circle, and never both.
pub proof fn lemma_exactly_one_service(ci: Ci)
    requires
        ci.wf(),
    ensures
        ci.is_travis() != ci.is_circle(),
{
}

/// A context made for what the variables speak for is one of Travis exactly
/// where only `TRAVIS` is set, and one of Circle exactly where only
/// `CIRCLECI` is set.
pub proof fn lemma_context_follows_markers(ci: Ci, vars: Vars)
    requires
        ci.wf(),
        ci.kind() == detect(vars),
    ensures
        ci.is_travis() <==> vars.contains_key("TRAVIS"@) && !vars.contains_key("CIRCLECI"@),
        ci.is_circle() <==> vars.contains_key("CIRCLECI"@) && !vars.contains_key("TRAVIS"@),
{
}

/// Under Travis the pull request is read from `TRAVIS_PULL_REQUEST`: there is
/// none where the variable is not set, none where it holds the text `false`,
/// and any other text is the pull request's number as it stands. A value that
/// is not valid Unicode is reported.
pub proof fn lemma_travis_pull_request(ci: Ci, vars: Vars, text: Seq<char>)
    requires
        ci.is_travis(),
    ensures
        !vars.contains_key("TRAVIS_PULL_REQUEST"@) ==> ci.spec_pull_request(vars) == Reading::Ok(
            None,
        ),
        vars.contains_key("TRAVIS_PULL_REQUEST"@) && vars["TRAVIS_PULL_REQUEST"@] == Some(
            "false"@,
        ) ==> ci.spec_pull_request(vars) == Reading::Ok(None),
        vars.contains_key("TRAVIS_PULL_REQUEST"@) && vars["TRAVIS_PULL_REQUEST"@] == Some(text)
            && text != "false"@ ==> ci.spec_pull_request(vars) == Reading::Ok(Some(text)),
        vars.contains_key("TRAVIS_PULL_REQUEST"@) && vars["TRAVIS_PULL_REQUEST"@] is None
            ==> ci.spec_pull_request(vars) == Reading::Err("TRAVIS_PULL_REQUEST"@),
{
}

/// Under Circle the pull request is whatever `CIRCLE_PR_NUMBER` holds.
pub proof fn lemma_circle_pull_request(ci: Ci, vars: Vars)
    requires
        ci.is_circle(),
    ensures
        ci.spec_pull_request(vars) == read(vars, "CIRCLE_PR_NUMBER"@),
{
}

/// What only one service publishes is absent under the other, whatever the
/// variables hold: there is no link to the build under Travis and no build
/// directory under Circle.
pub proof fn lemma_absent_under_other_service(ci: Ci, vars: Vars)
    ensures
        ci.is_travis() ==> ci.spec_build_url(vars) == Reading::Ok(None),
        ci.is_circle() ==> ci.spec_build_dir(vars) == Reading::Ok(None),
{
}

/// Under Circle no language has a version, whatever the variables hold.
pub proof fn lemma_no_version_under_circle(ci: Ci, vars: Vars, language: Language)
    requires
        ci.is_circle(),
    ensures
        ci.spec_language_version(vars, language) == Reading::Ok(None),
{
}

/// Under Travis the version of a language is whatever its variable holds.
pub proof fn lemma_version_under_travis(ci: Ci, vars: Vars, language: Language)
    requires
        ci.is_travis(),
    ensures
        ci.spec_language_version(vars, language) == read(vars, language.spec_version_var()),
{
}

} // verus!
