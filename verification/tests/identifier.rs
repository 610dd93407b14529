use octizys::identifier::Identifier;
use octizys::store::Store;

/// The text is refused as an identifier.
fn refused(s: &str) {
    let mut store = Store::default();
    let result = Identifier::make(s, &mut store);
    assert!(result.is_err(), "s = {}, result = {:?}", s, result);
}

/// The text is an identifier, and the store holds it.
fn accepted(s: &str) {
    let mut store = Store::default();
    match Identifier::make(s, &mut store) {
        Err(e) => panic!("s = {}, result = {:?}", s, e),
        Ok(value) => assert!(
            store.regular.resolve(value.as_tuple().0) == Some(s),
            "s = {}, value = {:?}",
            s,
            value
        ),
    }
}

#[test]
fn test_empty_isnt_identifier() {
    refused("");
}

#[test]
fn test_space_isnt_identifier() {
    refused(" ");
}

#[test]
fn test_leading_space_isnt_identifier() {
    refused(" asf");
}

#[test]
fn test_trailing_space_isnt_identifier() {
    refused("asf ");
}

#[test]
fn test_line_break_isnt_identifier() {
    refused("\n");
}

#[test]
fn test_underscore_alone_isnt_identifier() {
    refused("_");
}

#[test]
fn test_multiple_underscore_isnt_identifier() {
    refused("______");
}

#[test]
fn test_digit_isnt_identifier() {
    refused("1");
}

#[test]
fn test_digits_isnt_identifier() {
    refused("324321");
}

#[test]
fn test_digits_with_leters_isnt_identifier() {
    refused("324asdf");
}

#[test]
fn test_underscore_and_numbers_isnt_identifier() {
    refused("_12323");
}

#[test]
fn test_underscores_and_numbers_isnt_identifier() {
    refused("_123_2_3");
}

#[test]
fn test_underscores_numbers_and_letters_isnt_identifier() {
    refused("_123_2_3asf");
}

#[test]
fn test_non_aphabetic_symbol_isnt_identifier() {
    refused("~");
}

#[test]
fn test_non_aphabetic_symbols_in_middle_isnt_identifier() {
    refused("asfd~asdf");
}

#[test]
fn test_space_separation_isnt_identifier() {
    refused("asdf asdf");
}

#[test]
fn test_space_separations_isnt_identifier() {
    refused("asdf asdf d d er");
}

#[test]
fn test_trailing_single_quote_isnt_identifier() {
    refused("asdf'");
}

#[test]
fn test_leading_single_quote_isnt_identifier() {
    refused("'asdf");
}

#[test]
fn test_leading_interrogation_isnt_identifier() {
    refused("?asdf");
}

#[test]
fn test_trailing_interrogation_isnt_identifier() {
    refused("asdf?");
}

#[test]
fn test_with_interrogation_isnt_identifier() {
    refused("asdf?asdf");
}

#[test]
fn test_latin_letter_is_identifier() {
    accepted("a");
}

#[test]
fn test_latin_letters_is_identifier() {
    accepted("abcdefg");
}

#[test]
fn test_greek_letter_is_identifier() {
    accepted("λ");
}

#[test]
fn test_greek_letters_is_identifier() {
    accepted("λάμ");
}

#[test]
fn test_leading_underscore_is_identifier() {
    accepted("_a");
}

#[test]
fn test_leading_underscores_is_identifier() {
    accepted("____a");
}

#[test]
fn test_full_is_identifier() {
    accepted("__asdf__3434μ3__");
}
