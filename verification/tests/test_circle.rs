use rci::{Ci, Env};

fn circle_env() -> Env {
    let mut env = Env::new();
    env.set("LANG", "en_US.UTF-8");
    env.set("PATH", "/usr/local/bin:/usr/bin:/bin");
    env.set("HOME", "/home/ubuntu");
    env.set("CIRCLECI", "true");
    env.set("CIRCLE_SHA1", "def456");
    env.set("CIRCLE_BUILD_URL", "https://circleci.com/gh/x/1");
    env
}

#[test]
fn test_circle() {
    let env = circle_env();
    assert!(Ci::lang(&env).unwrap().is_some());
    assert!(Ci::path(&env).unwrap().is_some());
    assert!(Ci::home(&env).unwrap().is_some());
    let ci = match Ci::new(&env) {
        None => return,
        Some(ci) => {
            if ci.is_circle() {
                ci
            } else {
                return;
            }
        }
    };
    assert!(ci.is_circle());
    assert!(ci.commit(&env).unwrap().is_some());
    assert!(ci.build_url(&env).unwrap().is_some());
}

#[test]
fn circle_scenario_gives_the_published_values() {
    let env = circle_env();
    let ci = Ci::new(&env).expect("only CIRCLECI is set");
    assert!(ci.is_circle());
    assert!(!ci.is_travis());
    assert_eq!(ci.commit(&env), Ok(Some("def456".to_string())));
    assert_eq!(
        ci.build_url(&env),
        Ok(Some("https://circleci.com/gh/x/1".to_string()))
    );
    assert_eq!(ci.build_dir(&env), Ok(None));
}
