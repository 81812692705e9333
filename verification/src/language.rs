//! The languages whose version Travis publishes, and the variables it
//! publishes them in.

use vstd::prelude::*;
use vstd::string::*;

verus! {

/// A language that Travis publishes the version of.
#[derive(PartialEq, Eq, Structural, Debug, Clone, Copy)]
pub enum Language {
    Dart,
    Go,
    Haxe,
    Java,
    Julia,
    Node,
    Otp,
    Perl,
    Php,
    Python,
    R,
    Ruby,
    Rust,
    Scala,
}

impl Language {
    /// The token that stands for the language in the name of its variable.
    pub open spec fn spec_token(self) -> Seq<char> {
        match self {
            Language::Dart => "DART"@,
            Language::Go => "GO"@,
            Language::Haxe => "HAXE"@,
            Language::Java => "JDK"@,
            Language::Julia => "JULIA"@,
            Language::Node => "NODE"@,
            Language::Otp => "OTP"@,
            Language::Perl => "PERL"@,
            Language::Php => "PHP"@,
            Language::Python => "PYTHON"@,
            Language::R => "R"@,
            Language::Ruby => "RUBY"@,
            Language::Rust => "RUST"@,
            Language::Scala => "SCALA"@,
        }
    }

    /// The token that stands for the language in the name of its variable.
    pub fn token(self) -> (token: &'static str)
        ensures
            token@ == self.spec_token(),
    {
        match self {
            Language::Dart => "DART",
            Language::Go => "GO",
            Language::Haxe => "HAXE",
            Language::Java => "JDK",
            Language::Julia => "JULIA",
            Language::Node => "NODE",
            Language::Otp => "OTP",
            Language::Perl => "PERL",
            Language::Php => "PHP",
            Language::Python => "PYTHON",
            Language::R => "R",
            Language::Ruby => "RUBY",
            Language::Rust => "RUST",
            Language::Scala => "SCALA",
        }
    }

    /// The name of the variable in which Travis publishes the language's
    /// version: the token between `TRAVIS_` and `_VERSION`.
    pub open spec fn spec_version_var(self) -> Seq<char> {
        "TRAVIS_"@ + self.spec_token() + "_VERSION"@
    }

    /// The name of the variable in which Travis publishes the language's
    /// version.
    pub fn version_var(self) -> (name: String)
        ensures
            name@ == self.spec_version_var(),
    {
        let mut name = "TRAVIS_".to_owned();
        name.append(self.token());
        name.append("_VERSION");
        name
    }
}

/// The names that the rule gives, written out for every language.
pub proof fn lemma_version_vars()
    ensures
        Language::Dart.spec_version_var() == "TRAVIS_DART_VERSION"@,
        Language::Go.spec_version_var() == "TRAVIS_GO_VERSION"@,
        Language::Haxe.spec_version_var() == "TRAVIS_HAXE_VERSION"@,
        Language::Java.spec_version_var() == "TRAVIS_JDK_VERSION"@,
        Language::Julia.spec_version_var() == "TRAVIS_JULIA_VERSION"@,
        Language::Node.spec_version_var() == "TRAVIS_NODE_VERSION"@,
        Language::Otp.spec_version_var() == "TRAVIS_OTP_VERSION"@,
        Language::Perl.spec_version_var() == "TRAVIS_PERL_VERSION"@,
        Language::Php.spec_version_var() == "TRAVIS_PHP_VERSION"@,
        Language::Python.spec_version_var() == "TRAVIS_PYTHON_VERSION"@,
        Language::R.spec_version_var() == "TRAVIS_R_VERSION"@,
        Language::Ruby.spec_version_var() == "TRAVIS_RUBY_VERSION"@,
        Language::Rust.spec_version_var() == "TRAVIS_RUST_VERSION"@,
        Language::Scala.spec_version_var() == "TRAVIS_SCALA_VERSION"@,
{
    reveal_strlit("TRAVIS_");
    reveal_strlit("_VERSION");
    reveal_strlit("DART");
    reveal_strlit("GO");
    reveal_strlit("HAXE");
    reveal_strlit("JDK");
    reveal_strlit("JULIA");
    reveal_strlit("NODE");
    reveal_strlit("OTP");
    reveal_strlit("PERL");
    reveal_strlit("PHP");
    reveal_strlit("PYTHON");
    reveal_strlit("R");
    reveal_strlit("RUBY");
    reveal_strlit("RUST");
    reveal_strlit("SCALA");
    reveal_strlit("TRAVIS_DART_VERSION");
    reveal_strlit("TRAVIS_GO_VERSION");
    reveal_strlit("TRAVIS_HAXE_VERSION");
    reveal_strlit("TRAVIS_JDK_VERSION");
    reveal_strlit("TRAVIS_JULIA_VERSION");
    reveal_strlit("TRAVIS_NODE_VERSION");
    reveal_strlit("TRAVIS_OTP_VERSION");
    reveal_strlit("TRAVIS_PERL_VERSION");
    reveal_strlit("TRAVIS_PHP_VERSION");
    reveal_strlit("TRAVIS_PYTHON_VERSION");
    reveal_strlit("TRAVIS_R_VERSION");
    reveal_strlit("TRAVIS_RUBY_VERSION");
    reveal_strlit("TRAVIS_RUST_VERSION");
    reveal_strlit("TRAVIS_SCALA_VERSION");
}

} // verus!
