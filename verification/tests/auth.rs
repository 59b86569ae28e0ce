use rusty_chat::auth::{
    login, register, signup, signup_after_lookup, AuthReply, LoginOutcome, SignupOutcome, SignupStep,
};
use rusty_chat::dto::SignInSignUp;

fn creds(name: &str, password: &str) -> SignInSignUp {
    SignInSignUp { user_name: name.to_string(), password: password.to_string() }
}

#[test]
fn reply_texts() {
    assert_eq!(AuthReply::MissingCredentials.text(), "Please type a name/password");
    assert_eq!(AuthReply::UserExists.text(), "User already exists");
    assert_eq!(AuthReply::Welcome.text(), "Welcome");
    assert_eq!(AuthReply::WrongPassword("bob".to_string()).text(), "Password does not match the user: bob");
    assert_eq!(AuthReply::UnknownUser.text(), "User does not exist, please register.");
}

#[test]
fn signup_refuses_empty_credentials() {
    assert_eq!(signup(&creds("", "pw")), SignupStep::Reply(AuthReply::MissingCredentials));
    assert_eq!(signup(&creds("bob", "")), SignupStep::Reply(AuthReply::MissingCredentials));
    assert_eq!(signup(&creds("bob", "pw")), SignupStep::LookUpUser);
}

#[test]
fn signup_refuses_taken_name() {
    assert_eq!(
        signup_after_lookup(&creds("bob", "pw"), true),
        SignupOutcome::Reply(AuthReply::UserExists)
    );
}

#[test]
fn registered_user_logs_in_with_their_password() {
    let c = creds("bob", "hunter2");
    let user = match signup_after_lookup(&c, false) {
        SignupOutcome::Register(u) => u,
        other => panic!("unexpected {:?}", other),
    };
    assert_eq!(user.user_name, "bob");
    assert!(user.hash.starts_with("$argon2i$v=19$m=4096,t=3,p=1$"));
    assert_eq!(login(&c, Some(user.hash.clone())), LoginOutcome::LogIn);
    assert_eq!(
        login(&creds("bob", "hunter3"), Some(user.hash)),
        LoginOutcome::Reply(AuthReply::WrongPassword("bob".to_string()))
    );
}

#[test]
fn register_hashes_with_the_given_salt() {
    let salt = [b's'; 32];
    let a = register(&creds("amy", "password"), &salt);
    let b = register(&creds("amy", "password"), &salt);
    assert_eq!(a, b);
    match a {
        SignupOutcome::Register(u) => {
            assert_eq!(u.salt, salt);
            assert!(u.hash.starts_with("$argon2i$v=19$m=4096,t=3,p=1$c3Nzc3Nzc3Nzc3Nzc3Nzc3Nzc3Nzc3Nzc3Nzc3Nzc3M$"));
        }
        other => panic!("unexpected {:?}", other),
    }
}

#[test]
fn login_of_unknown_user() {
    assert_eq!(login(&creds("nobody", "pw"), None), LoginOutcome::Reply(AuthReply::UnknownUser));
}

#[test]
fn login_with_unreadable_stored_hash() {
    assert_eq!(login(&creds("bob", "pw"), Some("not a hash".to_string())), LoginOutcome::BadStoredHash);
}
