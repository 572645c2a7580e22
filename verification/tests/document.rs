use rfc::{Document, DocumentType};

#[test]
fn test_parse_rfc_number() {
    assert_eq!(DocumentType::parse("9000"), Some(DocumentType::Rfc(9000)));
    assert_eq!(
        DocumentType::parse("rfc9000"),
        Some(DocumentType::Rfc(9000))
    );
    assert_eq!(
        DocumentType::parse("RFC9000"),
        Some(DocumentType::Rfc(9000))
    );
    assert_eq!(
        DocumentType::parse("RFC 9000"),
        Some(DocumentType::Rfc(9000))
    );
}

#[test]
fn test_parse_draft() {
    assert_eq!(
        DocumentType::parse("draft-ietf-quic-transport-34"),
        Some(DocumentType::Draft(
            "draft-ietf-quic-transport-34".to_string()
        ))
    );
}

#[test]
fn test_document_type_display() {
    assert_eq!(DocumentType::Rfc(9000).to_string(), "RFC 9000");
    assert_eq!(
        DocumentType::Draft("draft-ietf-quic-transport".to_string()).to_string(),
        "draft-ietf-quic-transport"
    );
}

#[test]
fn test_parse_edge_cases() {
    // Empty/whitespace
    assert_eq!(DocumentType::parse(""), None);
    assert_eq!(DocumentType::parse("   "), None);

    // RFC without number
    assert_eq!(DocumentType::parse("rfc"), None);
    assert_eq!(DocumentType::parse("RFC"), None);

    // Whitespace handling
    assert_eq!(
        DocumentType::parse("  rfc9000  "),
        Some(DocumentType::Rfc(9000))
    );
    assert_eq!(
        DocumentType::parse("  9000  "),
        Some(DocumentType::Rfc(9000))
    );

    // RFC zero (technically parses, semantically invalid but not our problem)
    assert_eq!(DocumentType::parse("0"), Some(DocumentType::Rfc(0)));

    // Overflow protection - very large number should fail to parse
    assert_eq!(DocumentType::parse("99999999999999999999"), None);

    // Draft edge cases
    assert_eq!(
        DocumentType::parse("draft-"),
        Some(DocumentType::Draft("draft-".to_string()))
    );
}

#[test]
fn test_short_title() {
    let doc = Document::new(
        "rfc9000".to_string(),
        "A Very Long Title That Needs Truncation".to_string(),
        DocumentType::Rfc(9000),
    );

    // No truncation needed
    assert_eq!(
        doc.short_title(100),
        "A Very Long Title That Needs Truncation"
    );

    // Truncation with ellipsis
    assert_eq!(doc.short_title(20), "A Very Long Title...");

    // Edge cases
    assert_eq!(doc.short_title(3), "...");
    assert_eq!(doc.short_title(0), "...");
}

#[test]
fn test_short_title_utf8() {
    // Test with multibyte UTF-8 characters to ensure no panic
    let doc = Document::new(
        "rfc1234".to_string(),
        "Café résumé naïve".to_string(),
        DocumentType::Rfc(1234),
    );

    // Should not panic on multibyte characters
    let result = doc.short_title(10);
    assert!(result.ends_with("..."));
    assert!(result.chars().count() <= 10);
}
