use conduit::validations::{Field, FieldError};

fn text(s: &str) -> Option<String> {
    Some(s.to_string())
}

#[test]
fn required_absent_records_required() {
    let f: Field<String> = Field::required(None);
    assert_eq!(f.input, None);
    assert_eq!(f.errors, vec![FieldError::Required]);
}

#[test]
fn required_present_has_no_errors() {
    let f = Field::required(text(""));
    assert_eq!(f.input, text(""));
    assert!(f.errors.is_empty());
    let g = Field::required(Some(7u32));
    assert_eq!(g.input, Some(7));
    assert!(g.errors.is_empty());
}

#[test]
fn min_length_flags_short_input() {
    let f = Field::required(text("abc")).min_length(4);
    assert_eq!(f.input, text("abc"));
    assert_eq!(f.errors, vec![FieldError::MinLength(4)]);
}

#[test]
fn min_length_accepts_exact_length() {
    let f = Field::required(text("abcd")).min_length(4);
    assert!(f.errors.is_empty());
    let g = Field::required(text("")).min_length(0);
    assert!(g.errors.is_empty());
}

#[test]
fn min_length_ignores_absent_input() {
    let f: Field<String> = Field::required(None).min_length(4);
    assert_eq!(f.errors, vec![FieldError::Required]);
}

#[test]
fn min_length_counts_characters() {
    let f = Field::required(text("ééé")).min_length(4);
    assert_eq!(f.errors, vec![FieldError::MinLength(4)]);
    let g = Field::required(text("éééé")).min_length(4);
    assert!(g.errors.is_empty());
}

#[test]
fn checks_accumulate_in_order() {
    let f = Field::required(text("ab")).min_length(3).email().min_length(5);
    assert_eq!(
        f.errors,
        vec![FieldError::MinLength(3), FieldError::InvalidEmail, FieldError::MinLength(5)]
    );
}

#[test]
fn email_accepts_two_non_empty_parts() {
    assert!(Field::required(text("a@b")).email().errors.is_empty());
    assert!(Field::required(text("user@example.com")).email().errors.is_empty());
}

#[test]
fn email_rejects_other_shapes() {
    for s in ["ab", "a@b@c", "@b", "a@", "@", "", "@@"] {
        let f = Field::required(text(s)).email();
        assert_eq!(f.errors, vec![FieldError::InvalidEmail], "input {:?}", s);
        assert_eq!(f.input, text(s));
    }
}

#[test]
fn email_ignores_absent_input() {
    let f: Field<String> = Field::required(None).email();
    assert_eq!(f.errors, vec![FieldError::Required]);
}

#[test]
fn trim_strips_surrounding_white_space() {
    let f = Field::required(text("  ab@cd  ")).trim();
    assert_eq!(f.input, text("ab@cd"));
    assert!(f.errors.is_empty());
    let g = Field::required(text("\t\n x y\u{3000}\u{a0}")).trim();
    assert_eq!(g.input, text("x y"));
    let h = Field::required(text(" \r\n ")).trim();
    assert_eq!(h.input, text(""));
}

#[test]
fn trim_keeps_absent_input_and_errors() {
    let f: Field<String> = Field::required(None).trim();
    assert_eq!(f.input, None);
    assert_eq!(f.errors, vec![FieldError::Required]);
    let g = Field::required(text(" a ")).min_length(5).trim();
    assert_eq!(g.input, text("a"));
    assert_eq!(g.errors, vec![FieldError::MinLength(5)]);
}

#[test]
fn trim_before_length_check_changes_outcome() {
    let untrimmed = Field::required(text("  ab@cd  ")).min_length(9);
    assert!(untrimmed.errors.is_empty());
    let trimmed = Field::required(text("  ab@cd  ")).trim().min_length(9);
    assert_eq!(trimmed.errors, vec![FieldError::MinLength(9)]);
    let shorter = Field::required(text("  ab@cd  ")).trim().min_length(5);
    assert!(shorter.errors.is_empty());
}

#[test]
fn error_messages() {
    assert_eq!(FieldError::Required.message(), "This field is required.");
    assert_eq!(
        FieldError::MinLength(10).message(),
        "This field must be at least 10 characters."
    );
    assert_eq!(
        FieldError::MinLength(0).message(),
        "This field must be at least 0 characters."
    );
    assert_eq!(
        FieldError::InvalidEmail.message(),
        "This field doesn't look like an email address."
    );
}
