use bibnorm::date::{Date, DateField, DateValue, Datetime, date_to_string};
use bibnorm::jabref::{FileFieldError, jabref_file_parse};
use bibnorm::text::{Author, Person, TextChunk, flatten, person_to_string, persons_to_string};

fn person(given: &str, family: &str) -> Person {
    Person { given_name: given.to_string(), name: family.to_string() }
}

#[test]
fn flatten_empty_is_empty() {
    assert_eq!(flatten(&Vec::new()), "");
}

#[test]
fn flatten_concatenates_in_order() {
    let chunks = vec![
        TextChunk::Normal("Graph ".to_string()),
        TextChunk::Verbatim("Theory".to_string()),
        TextChunk::Math(" and Beyond".to_string()),
    ];
    assert_eq!(flatten(&chunks), "Graph Theory and Beyond");
}

#[test]
fn person_renders_given_then_family() {
    assert_eq!(person_to_string(&person("Ada", "Lovelace")), "Ada Lovelace");
}

#[test]
fn person_empty_given_keeps_leading_space() {
    assert_eq!(person_to_string(&person("", "Lovelace")), " Lovelace");
}

#[test]
fn author_projects_person() {
    let a = Author::from_person(&person("Ada", "Lovelace"));
    assert_eq!(a.name, "Ada");
    assert_eq!(a.surname, "Lovelace");
}

#[test]
fn persons_join_with_comma() {
    let ps = vec![person("Ada", "Lovelace"), person("Alan", "Turing")];
    assert_eq!(persons_to_string(&ps), "Ada Lovelace, Alan Turing");
}

#[test]
fn persons_join_empty_list() {
    assert_eq!(persons_to_string(&Vec::new()), "");
}

#[test]
fn date_instant_renders_year() {
    let d = DateField::Typed(Date { value: DateValue::At(Datetime { year: 1999 }) });
    assert_eq!(date_to_string(&d), Some("1999".to_string()));
}

#[test]
fn date_free_text_is_flattened() {
    let d = DateField::Chunks(vec![
        TextChunk::Normal("Spring".to_string()),
        TextChunk::Normal(" ".to_string()),
        TextChunk::Normal("2020".to_string()),
    ]);
    assert_eq!(date_to_string(&d), Some("Spring 2020".to_string()));
}

#[test]
fn date_range_is_absent() {
    let d = DateField::Typed(Date {
        value: DateValue::Between(Datetime { year: 1999 }, Datetime { year: 2001 }),
    });
    assert_eq!(date_to_string(&d), None);
}

#[test]
fn date_open_intervals_are_absent() {
    let after = DateField::Typed(Date { value: DateValue::After(Datetime { year: 1999 }) });
    let before = DateField::Typed(Date { value: DateValue::Before(Datetime { year: 1999 }) });
    assert_eq!(date_to_string(&after), None);
    assert_eq!(date_to_string(&before), None);
}

#[test]
fn date_negative_year_has_minus_sign() {
    let d = DateField::Typed(Date { value: DateValue::At(Datetime { year: -44 }) });
    assert_eq!(date_to_string(&d), Some("-44".to_string()));
}

#[test]
fn date_year_zero_renders_zero() {
    let d = DateField::Typed(Date { value: DateValue::At(Datetime { year: 0 }) });
    assert_eq!(date_to_string(&d), Some("0".to_string()));
}

#[test]
fn jabref_decodes_packed_path() {
    assert_eq!(
        jabref_file_parse(":/home/user/paper.pdf:PDF"),
        Ok("/home/user/paper.pdf".to_string())
    );
}

#[test]
fn jabref_rejects_plain_string() {
    assert_eq!(jabref_file_parse("no-pattern-here"), Err(FileFieldError::PatternMismatch));
}

#[test]
fn jabref_payload_is_greedy() {
    assert_eq!(jabref_file_parse("::PDF:PDF"), Ok(":PDF".to_string()));
}

#[test]
fn jabref_start_is_leftmost() {
    assert_eq!(jabref_file_parse("a:b:PDF"), Ok("b".to_string()));
}

#[test]
fn jabref_payload_may_not_be_empty() {
    assert_eq!(jabref_file_parse("::PDF"), Err(FileFieldError::PatternMismatch));
}

#[test]
fn jabref_newline_blocks_match() {
    assert_eq!(jabref_file_parse(":a\nb:PDF"), Err(FileFieldError::PatternMismatch));
}

#[test]
fn jabref_tag_after_newline_is_unreachable() {
    assert_eq!(jabref_file_parse(":a:PDF\n:b:PDF"), Ok("a".to_string()));
}
