use c2pa_testfile_maker::media::extension_to_mime;
use c2pa_testfile_maker::relationship::{parse_relationship, Relationship};
use c2pa_testfile_maker::error::PipelineError;

#[test]
fn the_table_of_extensions() {
    assert_eq!(extension_to_mime("jpg"), Some("image/jpeg"));
    assert_eq!(extension_to_mime("jpeg"), Some("image/jpeg"));
    assert_eq!(extension_to_mime("png"), Some("image/png"));
    assert_eq!(extension_to_mime("gif"), Some("image/gif"));
    assert_eq!(extension_to_mime("webp"), Some("image/webp"));
    assert_eq!(extension_to_mime("tiff"), Some("image/tiff"));
    assert_eq!(extension_to_mime("tif"), Some("image/tiff"));
    assert_eq!(extension_to_mime("bmp"), Some("image/bmp"));
}

#[test]
fn the_case_of_an_extension_does_not_matter() {
    assert_eq!(extension_to_mime("JPG"), Some("image/jpeg"));
    assert_eq!(extension_to_mime("Png"), Some("image/png"));
    assert_eq!(extension_to_mime("WebP"), Some("image/webp"));
    assert_eq!(extension_to_mime("TIFF"), Some("image/tiff"));
}

#[test]
fn an_extension_outside_the_table_has_no_media_type() {
    for extension in ["", "psd", "svg", "mp4", "jpg ", ".jpg", "jpe", "pngx", "image/png"] {
        assert_eq!(extension_to_mime(extension), None, "{:?}", extension);
    }
}

#[test]
fn the_two_relationships_are_read_whatever_their_case() {
    assert_eq!(parse_relationship("parentof").unwrap(), Relationship::ParentOf);
    assert_eq!(parse_relationship("parentOf").unwrap(), Relationship::ParentOf);
    assert_eq!(parse_relationship("PARENTOF").unwrap(), Relationship::ParentOf);
    assert_eq!(parse_relationship("componentof").unwrap(), Relationship::ComponentOf);
    assert_eq!(parse_relationship("ComponentOf").unwrap(), Relationship::ComponentOf);
}

#[test]
fn a_relationship_is_read_back_from_its_word() {
    for relationship in [Relationship::ParentOf, Relationship::ComponentOf] {
        assert_eq!(parse_relationship(relationship.as_str()).unwrap(), relationship);
    }
    assert_eq!(Relationship::ParentOf.as_str(), "parentOf");
    assert_eq!(Relationship::ComponentOf.as_str(), "componentOf");
}

#[test]
fn any_other_relationship_is_invalid() {
    for value in ["", "inputTo", "parent", "parent of", "componentof ", "childOf"] {
        match parse_relationship(value) {
            Err(PipelineError::InvalidRelationship { value: given }) => assert_eq!(given, value),
            other => panic!("{:?} for {:?}", other, value),
        }
    }
    let error = parse_relationship("inputTo").unwrap_err();
    assert_eq!(error.describe(), "Invalid relationship type: inputTo");
}
