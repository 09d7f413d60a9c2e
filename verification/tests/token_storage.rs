use messagify::token_storage::{
    get_tokens_file_path, load_discord_token, save_discord_token, TokenFileError,
};

#[test]
fn tokens_file_sits_beside_the_host_directory() {
    assert_eq!(get_tokens_file_path(), "../tokens.json");
}

#[test]
fn stored_object_holds_the_token() {
    assert_eq!(load_discord_token("{\"token\":\"abc\"}"), Ok(Some("abc".to_string())));
    assert_eq!(
        load_discord_token("{\n  \"token\": \"a\\\"b\"\n}"),
        Ok(Some("a\"b".to_string()))
    );
}

#[test]
fn stored_object_may_hold_none() {
    assert_eq!(load_discord_token("{\"token\":null}"), Ok(None));
    assert_eq!(load_discord_token("{}"), Ok(None));
    assert_eq!(load_discord_token("{\"token\":5}"), Ok(None));
    assert_eq!(load_discord_token("{\"other\":\"abc\"}"), Ok(None));
}

#[test]
fn older_array_form_gives_its_first_token() {
    assert_eq!(
        load_discord_token("[{\"token\":\"first\",\"messanger_type\":\"Discord\"},{\"token\":\"second\"}]"),
        Ok(Some("first".to_string()))
    );
    assert_eq!(
        load_discord_token("[{\"name\":\"x\"},7,{\"token\":null},{\"token\":\"late\"}]"),
        Ok(Some("late".to_string()))
    );
    assert_eq!(load_discord_token("[]"), Ok(None));
    assert_eq!(load_discord_token("[{\"token\":1}]"), Ok(None));
}

#[test]
fn other_json_holds_no_token() {
    assert_eq!(load_discord_token("null"), Ok(None));
    assert_eq!(load_discord_token("42"), Ok(None));
    assert_eq!(load_discord_token("\"abc\""), Ok(None));
    assert_eq!(load_discord_token("true"), Ok(None));
}

#[test]
fn text_that_is_not_json_is_a_parse_error() {
    assert_eq!(load_discord_token(""), Err(TokenFileError::Parse));
    assert_eq!(load_discord_token("{\"token\":"), Err(TokenFileError::Parse));
    assert_eq!(load_discord_token("token=abc"), Err(TokenFileError::Parse));
}

#[test]
fn saved_text_is_an_indented_object() {
    assert_eq!(save_discord_token(Some("abc")), "{\n  \"token\": \"abc\"\n}");
    assert_eq!(save_discord_token(None), "{\n  \"token\": null\n}");
    assert_eq!(save_discord_token(Some("a\"b\\")), "{\n  \"token\": \"a\\\"b\\\\\"\n}");
}

#[test]
fn what_is_saved_loads_again() {
    for token in [Some("abc"), Some(""), Some("with \"quotes\" and \n newline"), None] {
        let content = save_discord_token(token);
        assert_eq!(load_discord_token(&content), Ok(token.map(str::to_string)));
    }
}
