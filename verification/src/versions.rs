//! One accessor for each language that Travis publishes the version of.
//! Each asks `language_version` for its own language.

use crate::ci::Ci;
use crate::env::{reading, Env, EnvError};
use crate::language::Language;
use vstd::prelude::*;

verus! {

impl Ci {
    /// The version of Dart that the build uses. Only Travis publishes one.
    pub fn dart(&self, env: &Env) -> (r: Result<Option<String>, EnvError>)
        ensures
            reading(r) == self.spec_language_version(env@, Language::Dart),
    {
        self.language_version(env, Language::Dart)
    }

    /// The version of Go that the build uses. Only Travis publishes one.
    pub fn go(&self, env: &Env) -> (r: Result<Option<String>, EnvError>)
        ensures
            reading(r) == self.spec_language_version(env@, Language::Go),
    {
        self.language_version(env, Language::Go)
    }

    /// The version of Haxe that the build uses. Only Travis publishes one.
    pub fn haxe(&self, env: &Env) -> (r: Result<Option<String>, EnvError>)
        ensures
            reading(r) == self.spec_language_version(env@, Language::Haxe),
    {
        self.language_version(env, Language::Haxe)
    }

    /// The version of the JDK that the build uses. Only Travis publishes one.
    pub fn java(&self, env: &Env) -> (r: Result<Option<String>, EnvError>)
        ensures
            reading(r) == self.spec_language_version(env@, Language::Java),
    {
        self.language_version(env, Language::Java)
    }

    /// The version of Julia that the build uses. Only Travis publishes one.
    pub fn julia(&self, env: &Env) -> (r: Result<Option<String>, EnvError>)
        ensures
            reading(r) == self.spec_language_version(env@, Language::Julia),
    {
        self.language_version(env, Language::Julia)
    }

    /// The version of Node that the build uses. Only Travis publishes one.
    pub fn node(&self, env: &Env) -> (r: Result<Option<String>, EnvError>)
        ensures
            reading(r) == self.spec_language_version(env@, Language::Node),
    {
        self.language_version(env, Language::Node)
    }

    /// The version of Erlang/OTP that the build uses. Only Travis publishes one.
    pub fn otp(&self, env: &Env) -> (r: Result<Option<String>, EnvError>)
        ensures
            reading(r) == self.spec_language_version(env@, Language::Otp),
    {
        self.language_version(env, Language::Otp)
    }

    /// The version of Perl that the build uses. Only Travis publishes one.
    pub fn perl(&self, env: &Env) -> (r: Result<Option<String>, EnvError>)
        ensures
            reading(r) == self.spec_language_version(env@, Language::Perl),
    {
        self.language_version(env, Language::Perl)
    }

    /// The version of PHP that the build uses. Only Travis publishes one.
    pub fn php(&self, env: &Env) -> (r: Result<Option<String>, EnvError>)
        ensures
            reading(r) == self.spec_language_version(env@, Language::Php),
    {
        self.language_version(env, Language::Php)
    }

    /// The version of Python that the build uses. Only Travis publishes one.
    pub fn python(&self, env: &Env) -> (r: Result<Option<String>, EnvError>)
        ensures
            reading(r) == self.spec_language_version(env@, Language::Python),
    {
        self.language_version(env, Language::Python)
    }

    /// The version of R that the build uses. Only Travis publishes one.
    pub fn r(&self, env: &Env) -> (r: Result<Option<String>, EnvError>)
        ensures
            reading(r) == self.spec_language_version(env@, Language::R),
    {
        self.language_version(env, Language::R)
    }

    /// The version of Ruby that the build uses. Only Travis publishes one.
    pub fn ruby(&self, env: &Env) -> (r: Result<Option<String>, EnvError>)
        ensures
            reading(r) == self.spec_language_version(env@, Language::Ruby),
    {
        self.language_version(env, Language::Ruby)
    }

    /// The version of Rust that the build uses. Only Travis publishes one.
    pub fn rust(&self, env: &Env) -> (r: Result<Option<String>, EnvError>)
        ensures
            reading(r) == self.spec_language_version(env@, Language::Rust),
    {
        self.language_version(env, Language::Rust)
    }

    /// The version of Scala that the build uses. Only Travis publishes one.
    pub fn scala(&self, env: &Env) -> (r: Result<Option<String>, EnvError>)
        ensures
            reading(r) == self.spec_language_version(env@, Language::Scala),
    {
        self.language_version(env, Language::Scala)
    }
}

} // verus!
