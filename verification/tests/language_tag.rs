use event_content::error::ParseError;
use event_content::language_tag::LanguageTag;

#[test]
fn parse_accepts_a_primary_language() {
    let tag = LanguageTag::parse("fr").unwrap();
    assert_eq!(tag.as_str(), "fr");
    assert_eq!(tag.format(), "fr".to_string());
}

#[test]
fn parse_normalizes_the_case_of_a_region() {
    assert_eq!(LanguageTag::parse("en-us").unwrap().as_str(), "en-US");
}

#[test]
fn parse_normalizes_the_case_of_a_script() {
    assert_eq!(LanguageTag::parse("ZH-hANT-tw").unwrap().as_str(), "zh-Hant-TW");
}

#[test]
fn parse_spells_a_grandfathered_tag_as_registered() {
    assert_eq!(LanguageTag::parse("I-AMI").unwrap().as_str(), "i-ami");
    assert_eq!(LanguageTag::parse("en-gb-OED").unwrap().as_str(), "en-GB-oed");
}

#[test]
fn parse_lowers_a_private_use_tag() {
    assert_eq!(LanguageTag::parse("X-Foo-BAR").unwrap().as_str(), "x-foo-bar");
}

#[test]
fn parse_keeps_extensions_and_private_use() {
    assert_eq!(
        LanguageTag::parse("en-Latn-gb-boont-r-extended-sequence-x-private").unwrap().as_str(),
        "en-Latn-GB-boont-r-extended-sequence-x-private"
    );
}

#[test]
fn parse_rejects_digits_as_language() {
    assert_eq!(LanguageTag::parse("123"), Err(ParseError::InvalidGrammar));
}

#[test]
fn parse_rejects_a_trailing_dash() {
    assert_eq!(LanguageTag::parse("xx-"), Err(ParseError::InvalidGrammar));
}

#[test]
fn parse_rejects_empty_text() {
    assert_eq!(LanguageTag::parse(""), Err(ParseError::InvalidGrammar));
}

#[test]
fn parse_rejects_a_forbidden_character() {
    assert_eq!(LanguageTag::parse("not a tag!!"), Err(ParseError::InvalidGrammar));
    assert_eq!(LanguageTag::parse("fr_FR"), Err(ParseError::InvalidGrammar));
    assert_eq!(LanguageTag::parse("fran\u{e7}ais"), Err(ParseError::InvalidGrammar));
}

#[test]
fn parse_rejects_an_empty_private_use() {
    assert_eq!(LanguageTag::parse("x-"), Err(ParseError::InvalidGrammar));
    assert_eq!(LanguageTag::parse("en-x"), Err(ParseError::InvalidGrammar));
}

#[test]
fn parse_rejects_a_long_subtag() {
    assert_eq!(LanguageTag::parse("abcdefghi"), Err(ParseError::InvalidGrammar));
}

#[test]
fn parse_inverts_format() {
    for raw in ["fr", "EN-us", "zh-cmn-hans-cn", "de-DE-u-co-phonebk", "X-twain", "ART-lojban"] {
        let tag = LanguageTag::parse(raw).unwrap();
        assert_eq!(LanguageTag::parse(&tag.format()), Ok(tag));
    }
}

#[test]
fn equality_follows_the_normalized_text() {
    assert_eq!(LanguageTag::parse("en-us").unwrap(), LanguageTag::parse("EN-US").unwrap());
    assert_ne!(LanguageTag::parse("en").unwrap(), LanguageTag::parse("en-US").unwrap());
}

#[test]
fn ordering_follows_the_normalized_text() {
    let de = LanguageTag::parse("DE").unwrap();
    let en = LanguageTag::parse("en").unwrap();
    let en_us = LanguageTag::parse("en-us").unwrap();
    assert!(de < en);
    assert!(en < en_us);
    assert!(de.as_str() < en.as_str());
}

#[test]
fn clone_keeps_the_text() {
    let tag = LanguageTag::parse("pt-br").unwrap();
    let copy = tag.clone();
    assert_eq!(copy, tag);
    assert_eq!(copy.as_str(), "pt-BR");
}

/// Every text of up to `length` letters of `alphabet`.
fn texts(alphabet: &[char], length: usize) -> Vec<String> {
    let mut all = vec![String::new()];
    let mut last = vec![String::new()];
    for _ in 0..length {
        let mut next = Vec::new();
        for text in &last {
            for letter in alphabet {
                let mut longer = text.clone();
                longer.push(*letter);
                next.push(longer);
            }
        }
        all.extend(next.iter().cloned());
        last = next;
    }
    all
}

#[test]
fn text_of_a_parsed_tag_parses_to_itself() {
    let mut parsed = 0;
    for raw in texts(&['a', 'B', 'x', 'X', '1', '-'], 6) {
        if let Ok(tag) = LanguageTag::parse(&raw) {
            assert_eq!(LanguageTag::parse(tag.as_str()), Ok(tag.clone()), "from {:?}", raw);
            assert!(tag.as_str().eq_ignore_ascii_case(&raw));
            parsed += 1;
        }
    }
    assert!(parsed > 1000);
}

#[test]
fn text_of_a_long_parsed_tag_parses_to_itself() {
    let subtags = ["en", "ZHO", "Latn", "hANS", "us", "419", "x", "U", "co", "phonebk", "1996", "boont", "i", "AMI", "cmn"];
    for first in subtags {
        for second in subtags {
            for third in subtags {
                for fourth in subtags {
                    let raw = format!("{}-{}-{}-{}", first, second, third, fourth);
                    if let Ok(tag) = LanguageTag::parse(&raw) {
                        assert_eq!(LanguageTag::parse(tag.as_str()), Ok(tag.clone()), "from {:?}", raw);
                    }
                }
            }
        }
    }
    for raw in ["ART-LOJBAN", "En-gb-OED", "I-Default", "SGN-be-FR", "zh-MIN-nan", "X-whatever-IS-here", "x--"] {
        let tag = LanguageTag::parse(raw).unwrap();
        assert_eq!(LanguageTag::parse(tag.as_str()), Ok(tag.clone()));
    }
}
