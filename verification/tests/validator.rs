use boluo::validator::{email, nickname, password, username};

#[test]
fn validator_test() {
    assert_eq!(password().run(&"whoa!whoa!".to_string()), Ok(()));
    assert!(password().run("whoa!").is_err());

    assert_eq!(username().run("whoa"), Ok(()));
    assert!(username().run("whoa whoa").is_err());
    assert!(username().run("").is_err());

    assert_eq!(nickname().run("whoa"), Ok(()));
    assert!(nickname().run("whoa whoa").is_ok());
    assert!(nickname().run("").is_err());

    assert!(email().run("").is_err());
    assert!(email().run("example@example.com").is_ok());
}

#[test]
fn validator_reports_the_first_failed_rule() {
    assert_eq!(
        email().run(""),
        Err("E-mail address length shall not be less than 5.")
    );
    assert_eq!(email().run("plainaddress"), Err("Invalid e-mail address"));
    let long = "a".repeat(250) + "@b.cd";
    assert_eq!(
        email().run(&long),
        Err("E-mail address length shall not be more than 254.")
    );
    assert!(nickname().run("x").is_err());
}
