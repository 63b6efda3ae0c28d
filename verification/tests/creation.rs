use research_token::layout::{check_fields, text_fits, RECORD_BYTES, SPACE};
use research_token::{initialize_research, InitializeResearch, ResearchAccount, ResearchError};

fn creator() -> [u8; 32] {
    let mut id = [0u8; 32];
    id[0] = 7;
    id[31] = 9;
    id
}

fn empty_slot() -> InitializeResearch {
    InitializeResearch { research: None, authority: creator() }
}

fn names(count: usize, bytes_each: usize) -> Vec<String> {
    let mut out = Vec::new();
    for _ in 0..count {
        out.push("n".repeat(bytes_each));
    }
    out
}

#[test]
fn creation_sets_every_field() {
    let mut ctx = empty_slot();
    let authors = vec!["Ada Lovelace".to_string(), "Alan Turing".to_string()];
    let res = initialize_research(
        &mut ctx,
        "On Computable Numbers".to_string(),
        authors.clone(),
        "10.1000/182".to_string(),
        4.5f64.to_bits(),
        1000,
    );
    assert_eq!(res, Ok(()));
    let record = ctx.research.expect("the slot holds the new record");
    assert_eq!(record.authority, creator());
    assert_eq!(record.title, "On Computable Numbers");
    assert_eq!(record.authors, authors);
    assert_eq!(record.doi, "10.1000/182");
    assert_eq!(f64::from_bits(record.impact_score_bits), 4.5);
    assert_eq!(record.token_supply, 0);
    assert_eq!(record.funding_goal, 1000);
    assert_eq!(record.current_funding, 0);
    assert!(record.is_active);
    assert_eq!(ctx.authority, creator());
}

#[test]
fn creation_with_empty_fields() {
    let mut ctx = empty_slot();
    let res = initialize_research(&mut ctx, String::new(), Vec::new(), String::new(), 0, 0);
    assert_eq!(res, Ok(()));
    let record = ctx.research.unwrap();
    assert!(record.is_active);
    assert_eq!(record.title, "");
    assert!(record.authors.is_empty());
    assert_eq!(record.funding_goal, 0);
}

#[test]
fn creation_at_every_limit() {
    let mut ctx = empty_slot();
    let res = initialize_research(
        &mut ctx,
        "t".repeat(100),
        names(10, 50),
        "d".repeat(50),
        f64::MAX.to_bits(),
        u64::MAX,
    );
    assert_eq!(res, Ok(()));
    let record = ctx.research.unwrap();
    assert_eq!(record.title.len(), 100);
    assert_eq!(record.authors.len(), 10);
    assert_eq!(record.doi.len(), 50);
    assert_eq!(record.funding_goal, u64::MAX);
    assert_eq!(record.current_funding, 0);
}

#[test]
fn creation_refuses_long_title() {
    let mut ctx = empty_slot();
    let res = initialize_research(&mut ctx, "t".repeat(101), Vec::new(), String::new(), 0, 5);
    assert_eq!(res, Err(ResearchError::Allocation));
    assert!(ctx.research.is_none());
    assert_eq!(ctx.authority, creator());
}

#[test]
fn creation_counts_bytes_not_characters() {
    // Fifty two-byte characters are a hundred bytes; fifty-one are too many.
    let mut ctx = empty_slot();
    let res = initialize_research(&mut ctx, "é".repeat(50), Vec::new(), String::new(), 0, 5);
    assert_eq!(res, Ok(()));

    let mut ctx = empty_slot();
    let res = initialize_research(&mut ctx, "é".repeat(51), Vec::new(), String::new(), 0, 5);
    assert_eq!(res, Err(ResearchError::Allocation));
    assert!(ctx.research.is_none());
}

#[test]
fn creation_refuses_too_many_authors() {
    let mut ctx = empty_slot();
    let res = initialize_research(&mut ctx, "t".to_string(), names(11, 1), String::new(), 0, 5);
    assert_eq!(res, Err(ResearchError::Allocation));
    assert!(ctx.research.is_none());
}

#[test]
fn creation_refuses_long_author() {
    let mut authors = names(9, 50);
    authors.push("n".repeat(51));
    let mut ctx = empty_slot();
    let res = initialize_research(&mut ctx, "t".to_string(), authors, String::new(), 0, 5);
    assert_eq!(res, Err(ResearchError::Allocation));
    assert!(ctx.research.is_none());

    let mut authors = names(3, 10);
    authors.insert(0, "n".repeat(51));
    let mut ctx = empty_slot();
    let res = initialize_research(&mut ctx, "t".to_string(), authors, String::new(), 0, 5);
    assert_eq!(res, Err(ResearchError::Allocation));
}

#[test]
fn creation_refuses_long_doi() {
    let mut ctx = empty_slot();
    let res = initialize_research(&mut ctx, "t".to_string(), Vec::new(), "d".repeat(51), 0, 5);
    assert_eq!(res, Err(ResearchError::Allocation));
    assert!(ctx.research.is_none());
}

#[test]
fn creation_refuses_taken_slot() {
    let mut ctx = empty_slot();
    let res = initialize_research(&mut ctx, "first".to_string(), Vec::new(), "a".to_string(), 1, 10);
    assert_eq!(res, Ok(()));

    let res = initialize_research(&mut ctx, "second".to_string(), Vec::new(), "b".to_string(), 2, 20);
    assert_eq!(res, Err(ResearchError::Allocation));
    let record = ctx.research.unwrap();
    assert_eq!(record.title, "first");
    assert_eq!(record.doi, "a");
    assert_eq!(record.impact_score_bits, 1);
    assert_eq!(record.funding_goal, 10);
}

#[test]
fn impact_score_keeps_its_bits() {
    for score in [0.0f64, -0.0, 1.5, -273.15, f64::INFINITY, f64::MIN_POSITIVE] {
        let mut ctx = empty_slot();
        let res = initialize_research(&mut ctx, "t".to_string(), Vec::new(), String::new(), score.to_bits(), 1);
        assert_eq!(res, Ok(()));
        assert_eq!(ctx.research.unwrap().impact_score_bits, score.to_bits());
    }
    let mut ctx = empty_slot();
    let res = initialize_research(&mut ctx, "t".to_string(), Vec::new(), String::new(), f64::NAN.to_bits(), 1);
    assert_eq!(res, Ok(()));
    assert!(f64::from_bits(ctx.research.unwrap().impact_score_bits).is_nan());
}

#[test]
fn reserved_space_adds_up() {
    assert_eq!(RECORD_BYTES, 767);
    assert_eq!(ResearchAccount::LEN, 767);
    assert_eq!(SPACE, 775);
    assert_eq!(SPACE, 8 + 32 + (4 + 100) + (4 + 10 * (4 + 50)) + (4 + 50) + 8 + 8 + 8 + 8 + 1);
}

#[test]
fn text_fits_measures_utf8_bytes() {
    assert!(text_fits(&String::new(), 0));
    assert!(text_fits(&"abc".to_string(), 3));
    assert!(!text_fits(&"abcd".to_string(), 3));
    assert!(text_fits(&"日本".to_string(), 6));
    assert!(!text_fits(&"日本".to_string(), 5));
}

#[test]
fn check_fields_applies_each_limit() {
    let ok_title = "t".repeat(100);
    let ok_doi = "d".repeat(50);
    assert!(check_fields(&ok_title, &names(10, 50), &ok_doi));
    assert!(check_fields(&String::new(), &Vec::new(), &String::new()));
    assert!(!check_fields(&"t".repeat(101), &names(10, 50), &ok_doi));
    assert!(!check_fields(&ok_title, &names(11, 50), &ok_doi));
    assert!(!check_fields(&ok_title, &names(10, 51), &ok_doi));
    assert!(!check_fields(&ok_title, &names(10, 50), &"d".repeat(51)));
    let mut last_too_long = names(9, 50);
    last_too_long.push("n".repeat(51));
    assert!(!check_fields(&ok_title, &last_too_long, &ok_doi));
}
