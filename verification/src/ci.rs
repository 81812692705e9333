//! The context of a recognised service and its accessors.

use crate::env::{read, reading, Env, EnvError, Reading, Vars};
use crate::language::Language;
use crate::service::{detect, CiService};
use vstd::prelude::*;
use vstd::string::*;

verus! {

/// What an accessor gives that reads the variable `source`, or that reads
/// nothing because the service has no such variable.
pub open spec fn read_source(vars: Vars, source: Option<Seq<char>>) -> Reading {
    match source {
        Some(name) => read(vars, name),
        None => Ok(None),
    }
}

impl CiService {
    /// The variable that holds the branch being built.
    pub open spec fn branch_var(self) -> Option<Seq<char>> {
        match self {
            CiService::Travis => Some("TRAVIS_BRANCH"@),
            CiService::Circle => Some("CIRCLE_BRANCH"@),
            CiService::Unknown => None,
        }
    }

    /// The variable that holds a permanent link to the build. Only Circle has
    /// one.
    pub open spec fn build_url_var(self) -> Option<Seq<char>> {
        match self {
            CiService::Circle => Some("CIRCLE_BUILD_URL"@),
            _ => None,
        }
    }

    /// The variable that holds the build's number.
    pub open spec fn build_id_var(self) -> Option<Seq<char>> {
        match self {
            CiService::Travis => Some("TRAVIS_BUILD_NUMBER"@),
            CiService::Circle => Some("CIRCLE_BUILD_NUM"@),
            CiService::Unknown => None,
        }
    }

    /// The variable that holds the directory the repository was copied to.
    /// Only Travis has one.
    pub open spec fn build_dir_var(self) -> Option<Seq<char>> {
        match self {
            CiService::Travis => Some("TRAVIS_BUILD_DIR"@),
            _ => None,
        }
    }

    /// The variable that holds the hash of the commit being tested.
    pub open spec fn commit_var(self) -> Option<Seq<char>> {
        match self {
            CiService::Travis => Some("TRAVIS_COMMIT"@),
            CiService::Circle => Some("CIRCLE_SHA1"@),
            CiService::Unknown => None,
        }
    }

    /// The variable that holds the version of `language`. Only Travis has
    /// such variables.
    pub open spec fn version_var(self, language: Language) -> Option<Seq<char>> {
        match self {
            CiService::Travis => Some(language.spec_version_var()),
            _ => None,
        }
    }
}

/// The context of a build that runs under a recognised service.
pub struct Ci {
    service: CiService,
}

impl Ci {
    /// The service that the context was made for.
    pub closed spec fn kind(&self) -> CiService {
        self.service
    }

    /// A context is only ever made for a recognised service.
    #[verifier::type_invariant]
    pub open spec fn wf(&self) -> bool {
        self.kind() != CiService::Unknown
    }

    /// The service that `env` speaks for.
    pub fn which_ci(env: &Env) -> (kind: CiService)
        ensures
            kind == detect(env@),
    {
        let travis = env.contains("TRAVIS");
        let circle = env.contains("CIRCLECI");
        if travis && !circle {
            CiService::Travis
        } else if circle && !travis {
            CiService::Circle
        } else {
            CiService::Unknown
        }
    }

    /// The context of the service that `env` speaks for, or `None` where it
    /// speaks for no recognised service.
    pub fn new(env: &Env) -> (ci: Option<Ci>)
        ensures
            ci is Some <==> detect(env@) != CiService::Unknown,
            ci matches Some(made) ==> made.wf() && made.kind() == detect(env@),
    {
        let s = Ci::which_ci(env);
        match s {
            CiService::Travis | CiService::Circle => Some(Ci { service: s }),
            CiService::Unknown => None,
        }
    }

    /// The locale setting, such as `en_US.UTF-8`.
    pub fn lang(env: &Env) -> (r: Result<Option<String>, EnvError>)
        ensures
            reading(r) == read(env@, "LANG"@),
    {
        env.var("LANG")
    }

    /// The search path.
    pub fn path(env: &Env) -> (r: Result<Option<String>, EnvError>)
        ensures
            reading(r) == read(env@, "PATH"@),
    {
        env.var("PATH")
    }

    /// The path to the user's home directory.
    pub fn home(env: &Env) -> (r: Result<Option<String>, EnvError>)
        ensures
            reading(r) == read(env@, "HOME"@),
    {
        env.var("HOME")
    }

    /// Whether the context is one of Travis.
    pub open spec fn spec_is_travis(&self) -> bool {
        self.kind() == CiService::Travis
    }

    /// Whether the context is one of Circle.
    pub open spec fn spec_is_circle(&self) -> bool {
        self.kind() == CiService::Circle
    }

    /// Whether the build runs under Travis. It does exactly when it does not
    /// run under Circle.
    #[verifier::when_used_as_spec(spec_is_travis)]
    pub fn is_travis(&self) -> (yes: bool)
        ensures
            yes == self.spec_is_travis(),
            yes != self.spec_is_circle(),
    {
        proof {
            use_type_invariant(self);
        }
        match self.service {
            CiService::Travis => true,
            _ => false,
        }
    }

    /// Whether the build runs under Circle. It does exactly when it does not
    /// run under Travis.
    #[verifier::when_used_as_spec(spec_is_circle)]
    pub fn is_circle(&self) -> (yes: bool)
        ensures
            yes == self.spec_is_circle(),
            yes != self.spec_is_travis(),
    {
        proof {
            use_type_invariant(self);
        }
        match self.service {
            CiService::Circle => true,
            _ => false,
        }
    }

    /// What `branch` gives on the variables `vars`.
    pub open spec fn spec_branch(&self, vars: Vars) -> Reading {
        read_source(vars, self.kind().branch_var())
    }

    /// The branch being built.
    pub fn branch(&self, env: &Env) -> (r: Result<Option<String>, EnvError>)
        ensures
            reading(r) == self.spec_branch(env@),
    {
        match self.service {
            CiService::Circle => env.var("CIRCLE_BRANCH"),
            CiService::Travis => env.var("TRAVIS_BRANCH"),
            CiService::Unknown => Ok(None),
        }
    }

    /// What `build_url` gives on the variables `vars`.
    pub open spec fn spec_build_url(&self, vars: Vars) -> Reading {
        read_source(vars, self.kind().build_url_var())
    }

    /// A permanent link to the build. Only Circle publishes one, so under
    /// Travis there is none, whatever the variables hold.
    pub fn build_url(&self, env: &Env) -> (r: Result<Option<String>, EnvError>)
        ensures
            reading(r) == self.spec_build_url(env@),
    {
        match self.service {
            CiService::Circle => env.var("CIRCLE_BUILD_URL"),
            _ => Ok(None),
        }
    }

    /// What `build_id` gives on the variables `vars`.
    pub open spec fn spec_build_id(&self, vars: Vars) -> Reading {
        read_source(vars, self.kind().build_id_var())
    }

    /// The build's number, as the text that the service publishes.
    pub fn build_id(&self, env: &Env) -> (r: Result<Option<String>, EnvError>)
        ensures
            reading(r) == self.spec_build_id(env@),
    {
        match self.service {
            CiService::Circle => env.var("CIRCLE_BUILD_NUM"),
            CiService::Travis => env.var("TRAVIS_BUILD_NUMBER"),
            CiService::Unknown => Ok(None),
        }
    }

    /// What `build_dir` gives on the variables `vars`.
    pub open spec fn spec_build_dir(&self, vars: Vars) -> Reading {
        read_source(vars, self.kind().build_dir_var())
    }

    /// The absolute path of the directory that the repository was copied to
    /// on the worker. Only Travis publishes one, so under Circle there is
    /// none, whatever the variables hold.
    pub fn build_dir(&self, env: &Env) -> (r: Result<Option<String>, EnvError>)
        ensures
            reading(r) == self.spec_build_dir(env@),
    {
        match self.service {
            CiService::Travis => env.var("TRAVIS_BUILD_DIR"),
            _ => Ok(None),
        }
    }

    /// What `commit` gives on the variables `vars`.
    pub open spec fn spec_commit(&self, vars: Vars) -> Reading {
        read_source(vars, self.kind().commit_var())
    }

    /// The hash of the commit being tested.
    pub fn commit(&self, env: &Env) -> (r: Result<Option<String>, EnvError>)
        ensures
            reading(r) == self.spec_commit(env@),
    {
        match self.service {
            CiService::Circle => env.var("CIRCLE_SHA1"),
            CiService::Travis => env.var("TRAVIS_COMMIT"),
            CiService::Unknown => Ok(None),
        }
    }

    /// What `pull_request` gives on the variables `vars`. Circle publishes
    /// the number in a variable of its own. Travis always sets its variable
    /// and writes `false` in it for a build that belongs to no pull request,
    /// so that text stands for no number, as does the variable when it is
    /// not set.
    pub open spec fn spec_pull_request(&self, vars: Vars) -> Reading {
        match self.kind() {
            CiService::Circle => read(vars, "CIRCLE_PR_NUMBER"@),
            CiService::Travis => {
                let published = read(vars, "TRAVIS_PULL_REQUEST"@);
                if published == Reading::Ok(Some("false"@)) {
                    Ok(None)
                } else {
                    published
                }
            },
            CiService::Unknown => Ok(None),
        }
    }

    /// The number of the pull request that the build is part of, or `None`
    /// where it is part of none.
    pub fn pull_request(&self, env: &Env) -> (r: Result<Option<String>, EnvError>)
        ensures
            reading(r) == self.spec_pull_request(env@),
    {
        match self.service {
            CiService::Circle => env.var("CIRCLE_PR_NUMBER"),
            CiService::Travis => {
                let pr = match env.var("TRAVIS_PULL_REQUEST") {
                    Ok(Some(text)) => text,
                    Ok(None) => "false".to_owned(),
                    Err(fault) => {
                        return Err(fault);
                    },
                };
                if pr == "false".to_owned() {
                    Ok(None)
                } else {
                    Ok(Some(pr))
                }
            },
            CiService::Unknown => Ok(None),
        }
    }

    /// What `language_version` gives on the variables `vars`.
    pub open spec fn spec_language_version(&self, vars: Vars, language: Language) -> Reading {
        read_source(vars, self.kind().version_var(language))
    }

    /// The version of `language` that the build uses. Only Travis publishes
    /// one, so under Circle there is none, whatever the variables hold.
    pub fn language_version(&self, env: &Env, language: Language) -> (r: Result<
        Option<String>,
        EnvError,
    >)
        ensures
            reading(r) == self.spec_language_version(env@, language),
    {
        match self.service {
            CiService::Travis => {
                let name = language.version_var();
                env.var(name.as_str())
            },
            _ => Ok(None),
        }
    }

    /// What `to_string` gives.
    pub open spec fn spec_to_string(&self) -> Seq<char> {
        "Continuous Integration Service: "@ + self.kind().spec_name()
    }

    /// A line that names the service.
    pub fn to_string(&self) -> (line: String)
        ensures
            line@ == self.spec_to_string(),
    {
        let mut line = "Continuous Integration Service: ".to_owned();
        line.append(self.service.name());
        line
    }
}

} // verus!
