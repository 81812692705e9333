use rci::{Ci, Env, EnvError};

fn everything_set(marker: &str) -> Env {
    let mut env = Env::new();
    env.set(marker, "true");
    env.set("TRAVIS_BRANCH", "travis-branch");
    env.set("CIRCLE_BRANCH", "circle-branch");
    env.set("CIRCLE_BUILD_URL", "https://circleci.com/gh/circleci/frontend/933");
    env.set("TRAVIS_BUILD_NUMBER", "17");
    env.set("CIRCLE_BUILD_NUM", "933");
    env.set("TRAVIS_BUILD_DIR", "/home/travis/build/x/y");
    env.set("TRAVIS_COMMIT", "abc123");
    env.set("CIRCLE_SHA1", "def456");
    env.set("TRAVIS_PULL_REQUEST", "42");
    env.set("CIRCLE_PR_NUMBER", "7");
    env
}

fn text(value: &str) -> Result<Option<String>, EnvError> {
    Ok(Some(value.to_string()))
}

fn fault(name: &str) -> Result<Option<String>, EnvError> {
    Err(EnvError::NotUnicode {
        name: name.to_string(),
    })
}

#[test]
fn travis_reads_its_own_variables() {
    let env = everything_set("TRAVIS");
    let ci = Ci::new(&env).expect("only TRAVIS is set");
    assert_eq!(ci.branch(&env), text("travis-branch"));
    assert_eq!(ci.build_id(&env), text("17"));
    assert_eq!(ci.build_dir(&env), text("/home/travis/build/x/y"));
    assert_eq!(ci.commit(&env), text("abc123"));
    assert_eq!(ci.pull_request(&env), text("42"));
}

#[test]
fn circle_reads_its_own_variables() {
    let env = everything_set("CIRCLECI");
    let ci = Ci::new(&env).expect("only CIRCLECI is set");
    assert_eq!(ci.branch(&env), text("circle-branch"));
    assert_eq!(
        ci.build_url(&env),
        text("https://circleci.com/gh/circleci/frontend/933")
    );
    assert_eq!(ci.build_id(&env), text("933"));
    assert_eq!(ci.commit(&env), text("def456"));
    assert_eq!(ci.pull_request(&env), text("7"));
}

#[test]
fn there_is_no_build_url_under_travis() {
    let mut env = everything_set("TRAVIS");
    let ci = Ci::new(&env).expect("only TRAVIS is set");
    assert_eq!(ci.build_url(&env), Ok(None));
    env.set_not_unicode("CIRCLE_BUILD_URL");
    assert_eq!(ci.build_url(&env), Ok(None));
}

#[test]
fn there_is_no_build_dir_under_circle() {
    let mut env = everything_set("CIRCLECI");
    let ci = Ci::new(&env).expect("only CIRCLECI is set");
    assert_eq!(ci.build_dir(&env), Ok(None));
    env.set_not_unicode("TRAVIS_BUILD_DIR");
    assert_eq!(ci.build_dir(&env), Ok(None));
}

#[test]
fn what_is_not_set_is_absent() {
    let mut env = Env::new();
    env.set("TRAVIS", "true");
    let ci = Ci::new(&env).expect("only TRAVIS is set");
    assert_eq!(ci.branch(&env), Ok(None));
    assert_eq!(ci.build_id(&env), Ok(None));
    assert_eq!(ci.build_dir(&env), Ok(None));
    assert_eq!(ci.commit(&env), Ok(None));

    let mut env = Env::new();
    env.set("CIRCLECI", "true");
    let ci = Ci::new(&env).expect("only CIRCLECI is set");
    assert_eq!(ci.branch(&env), Ok(None));
    assert_eq!(ci.build_url(&env), Ok(None));
    assert_eq!(ci.build_id(&env), Ok(None));
    assert_eq!(ci.commit(&env), Ok(None));
    assert_eq!(ci.pull_request(&env), Ok(None));
}

#[test]
fn every_lookup_reads_the_environment_it_is_given() {
    let mut env = Env::new();
    env.set("TRAVIS", "true");
    env.set("TRAVIS_BRANCH", "main");
    let ci = Ci::new(&env).expect("only TRAVIS is set");
    assert_eq!(ci.branch(&env), text("main"));
    assert_eq!(ci.branch(&env), text("main"));
    env.set("TRAVIS_BRANCH", "release");
    assert_eq!(ci.branch(&env), text("release"));
    assert_eq!(ci.branch(&Env::new()), Ok(None));
}

#[test]
fn a_value_that_is_not_unicode_is_a_fault_under_travis() {
    let mut env = Env::new();
    env.set("TRAVIS", "true");
    env.set_not_unicode("TRAVIS_BRANCH");
    env.set_not_unicode("TRAVIS_BUILD_NUMBER");
    env.set_not_unicode("TRAVIS_BUILD_DIR");
    env.set_not_unicode("TRAVIS_COMMIT");
    env.set_not_unicode("TRAVIS_PULL_REQUEST");
    let ci = Ci::new(&env).expect("only TRAVIS is set");
    assert_eq!(ci.branch(&env), fault("TRAVIS_BRANCH"));
    assert_eq!(ci.build_id(&env), fault("TRAVIS_BUILD_NUMBER"));
    assert_eq!(ci.build_dir(&env), fault("TRAVIS_BUILD_DIR"));
    assert_eq!(ci.commit(&env), fault("TRAVIS_COMMIT"));
    assert_eq!(ci.pull_request(&env), fault("TRAVIS_PULL_REQUEST"));
}

#[test]
fn a_value_that_is_not_unicode_is_a_fault_under_circle() {
    let mut env = Env::new();
    env.set("CIRCLECI", "true");
    env.set_not_unicode("CIRCLE_BRANCH");
    env.set_not_unicode("CIRCLE_BUILD_URL");
    env.set_not_unicode("CIRCLE_BUILD_NUM");
    env.set_not_unicode("CIRCLE_SHA1");
    env.set_not_unicode("CIRCLE_PR_NUMBER");
    let ci = Ci::new(&env).expect("only CIRCLECI is set");
    assert_eq!(ci.branch(&env), fault("CIRCLE_BRANCH"));
    assert_eq!(ci.build_url(&env), fault("CIRCLE_BUILD_URL"));
    assert_eq!(ci.build_id(&env), fault("CIRCLE_BUILD_NUM"));
    assert_eq!(ci.commit(&env), fault("CIRCLE_SHA1"));
    assert_eq!(ci.pull_request(&env), fault("CIRCLE_PR_NUMBER"));
}

#[test]
fn the_general_accessors_report_a_value_that_is_not_unicode() {
    let mut env = Env::new();
    env.set_not_unicode("LANG");
    env.set_not_unicode("PATH");
    env.set_not_unicode("HOME");
    assert_eq!(Ci::lang(&env), fault("LANG"));
    assert_eq!(Ci::path(&env), fault("PATH"));
    assert_eq!(Ci::home(&env), fault("HOME"));
}

#[test]
fn travis_pull_request_is_absent_where_the_variable_is_not_set() {
    let mut env = Env::new();
    env.set("TRAVIS", "true");
    env.set("CIRCLE_PR_NUMBER", "7");
    let ci = Ci::new(&env).expect("only TRAVIS is set");
    assert_eq!(ci.pull_request(&env), Ok(None));
}

#[test]
fn travis_pull_request_is_absent_where_the_variable_holds_false() {
    let mut env = Env::new();
    env.set("TRAVIS", "true");
    env.set("TRAVIS_PULL_REQUEST", "false");
    let ci = Ci::new(&env).expect("only TRAVIS is set");
    assert_eq!(ci.pull_request(&env), Ok(None));
}

#[test]
fn travis_pull_request_is_any_other_text_as_it_stands() {
    let mut env = Env::new();
    env.set("TRAVIS", "true");
    let ci = Ci::new(&env).expect("only TRAVIS is set");
    for value in ["42", "", "False", "FALSE", "false ", "true", "0"] {
        env.set("TRAVIS_PULL_REQUEST", value);
        assert_eq!(ci.pull_request(&env), text(value));
    }
}

#[test]
fn circle_pull_request_is_read_as_it_stands() {
    let mut env = Env::new();
    env.set("CIRCLECI", "true");
    env.set("TRAVIS_PULL_REQUEST", "42");
    let ci = Ci::new(&env).expect("only CIRCLECI is set");
    assert_eq!(ci.pull_request(&env), Ok(None));
    env.set("CIRCLE_PR_NUMBER", "false");
    assert_eq!(ci.pull_request(&env), text("false"));
    env.set("CIRCLE_PR_NUMBER", "7");
    assert_eq!(ci.pull_request(&env), text("7"));
}
