use chat_core::user::User;

#[test]
fn default_user_has_no_name_and_stock_avatar() {
    let user = User::default();
    assert_eq!(user.username, "");
    assert_eq!(user.avatar, "alex");
}

#[test]
fn user_clone_keeps_fields() {
    let user = User { username: String::from("alice"), avatar: String::from("cat") };
    let copy = user.clone();
    assert_eq!(copy.username, "alice");
    assert_eq!(copy.avatar, "cat");
}
