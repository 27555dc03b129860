use c2pa_testfile_maker::algorithm::SigningAlgorithm;
use c2pa_testfile_maker::builder::ManifestBuilder;
use c2pa_testfile_maker::codec::Extracted;
use c2pa_testfile_maker::error::{Operation, PipelineError};
use c2pa_testfile_maker::ingredient::{
    finish_ingredient, ingredient_path, media_type_for, resolve_ingredient, IngredientSource,
};
use c2pa_testfile_maker::key::ed_sign;
use c2pa_testfile_maker::manifest::IngredientDeclaration;
use c2pa_testfile_maker::relationship::Relationship;
use c2pa_testfile_maker::signer::load_credential;
use c2pa_testfile_maker::store::{ManifestStore, ValidationState};
use std::sync::atomic::{AtomicUsize, Ordering};
use std::sync::Arc;

fn pem_text(tag: &str, der: &[u8]) -> Vec<u8> {
    pem::encode(&pem::Pem::new(tag, der.to_vec())).into_bytes()
}

fn ed25519_chain() -> Vec<u8> {
    let mut chain = pem_text("CERTIFICATE", &ED25519_SIGNER_CERT);
    chain.extend(pem_text("CERTIFICATE", &ED25519_ROOT_CERT));
    chain
}

fn es256_chain() -> Vec<u8> {
    let mut chain = pem_text("CERTIFICATE", &ES256_SIGNER_CERT);
    chain.extend(pem_text("CERTIFICATE", &ES256_ROOT_CERT));
    chain
}

fn ed25519_key() -> Vec<u8> {
    let mut der = vec![0x30, 0x2e, 0x02, 0x01, 0x00, 0x30, 0x05, 0x06, 0x03, 0x2b, 0x65, 0x70];
    der.extend([0x04, 0x22, 0x04, 0x20]);
    der.extend(ED25519_SEED);
    pem_text("PRIVATE KEY", &der)
}

fn es256_key() -> Vec<u8> {
    pem_text("PRIVATE KEY", &ES256_PRIVATE_KEY)
}

/// Signs through a callback that signs with the Ed25519 test key.
fn sign(builder: ManifestBuilder, format: &str, asset: &[u8]) -> Result<Vec<u8>, PipelineError> {
    let key = ed25519_key();
    builder.sign_and_embed_with(
        SigningAlgorithm::Ed25519,
        &ed25519_chain(),
        move |data: &[u8]| ed_sign(data, &key),
        format,
        asset,
    )
}

fn declaration(file_path: &str, title: Option<&str>, relationship: Option<&str>) -> IngredientDeclaration {
    IngredientDeclaration {
        file_path: file_path.to_string(),
        title: title.map(str::to_string),
        relationship: relationship.map(str::to_string),
    }
}

fn found(bytes: &[u8]) -> IngredientSource {
    IngredientSource::Found(bytes.to_vec())
}

const ONE_ASSERTION: &str = r#"{
    "title": "T",
    "assertions": [
        {"label": "c2pa.asset-type", "data": {"types": [{"type": "c2pa.types.generator.prompt"}]}}
    ],
    "ingredients_from_files": []
}"#;

const WITH_ACTIONS: &str = r#"{
    "title": "Made",
    "assertions": [{"label": "c2pa.actions", "data": {"actions": [{"action": "c2pa.created"}]}}]
}"#;

const THREE_INGREDIENTS: &str = r#"{
    "title": "Composite",
    "assertions": [
        {"label": "org.example.first", "data": {"n": 1}},
        {"label": "c2pa.asset-ref", "data": {"references": [{"reference": {"uri": "https://example.com/a"}}]}},
        {"label": "org.example.third", "data": {"n": 3}}
    ],
    "ingredients_from_files": [
        {"file_path": "parts/Parent.png", "title": "The parent", "relationship": "ParentOf"},
        {"file_path": "/abs/Part.jpg"},
        {"file_path": "Other.WEBP", "title": "Another part", "relationship": "componentof"}
    ]
}"#;

#[test]
fn the_path_and_the_format_of_an_ingredient() {
    let relative = declaration("parts/a.PNG", None, None);
    assert_eq!(ingredient_path(&relative, "base"), "base/parts/a.PNG");
    let absolute = declaration("/abs/a.jpeg", None, None);
    assert_eq!(ingredient_path(&absolute, "base"), "/abs/a.jpeg");

    assert_eq!(media_type_for("base/parts/a.PNG", true).unwrap(), "image/png");
    assert_eq!(media_type_for("/abs/a.jpeg", true).unwrap(), "image/jpeg");
    assert_eq!(media_type_for("a.b.tif", true).unwrap(), "image/tiff");
}

#[test]
fn a_missing_file_is_reported_with_its_resolved_path() {
    let declared = declaration("parts/a.png", Some("A"), Some("nonsense"));
    match resolve_ingredient(&declared, "base", &IngredientSource::Missing) {
        Err(PipelineError::IngredientNotFound { path }) => assert_eq!(path, "base/parts/a.png"),
        other => panic!("{:?}", other.map(|i| format!("{:?}", i.summary()))),
    }
    match media_type_for("base/a.unknown", false) {
        Err(PipelineError::IngredientNotFound { path }) => assert_eq!(path, "base/a.unknown"),
        other => panic!("{:?}", other),
    }
    let error = resolve_ingredient(&declared, "/b", &IngredientSource::Missing).err().unwrap();
    assert_eq!(error.describe(), "Ingredient file not found: \"/b/parts/a.png\"");
}

#[test]
fn a_file_of_an_unknown_format_is_not_skipped() {
    for file_path in ["a.psd", "a.png.txt", "a."] {
        let declared = declaration(file_path, None, None);
        match resolve_ingredient(&declared, "base", &found(&DOG_PNG)) {
            Err(PipelineError::UnknownFormat { path }) => {
                assert_eq!(path, format!("base/{}", file_path))
            }
            other => panic!("{:?} for {:?}", other.map(|i| format!("{:?}", i.summary())), file_path),
        }
    }
    for file_path in ["a", "dir.png/a", ".png"] {
        let declared = declaration(file_path, None, None);
        match resolve_ingredient(&declared, "base", &found(&DOG_PNG)) {
            Err(PipelineError::NoExtension { path }) => {
                assert_eq!(path, format!("base/{}", file_path))
            }
            other => panic!("{:?} for {:?}", other.map(|i| format!("{:?}", i.summary())), file_path),
        }
    }
}

#[test]
fn an_invalid_relationship_stops_the_resolution() {
    let declared = declaration("a.png", Some("A"), Some("inputTo"));
    match resolve_ingredient(&declared, "base", &found(&DOG_PNG)) {
        Err(PipelineError::InvalidRelationship { value }) => assert_eq!(value, "inputTo"),
        other => panic!("{:?}", other.map(|i| format!("{:?}", i.summary()))),
    }
}

#[test]
fn a_resolved_ingredient_records_what_was_declared() {
    let declared = declaration("parts/a.PNG", Some("A"), Some("PARENTOF"));
    let ingredient = resolve_ingredient(&declared, "base", &found(&DOG_PNG)).unwrap();
    let summary = ingredient.summary();
    assert_eq!(summary.path, "base/parts/a.PNG");
    assert_eq!(summary.title.as_deref(), Some("A"));
    assert_eq!(summary.format, "image/png");
    assert_eq!(summary.relationship, Some(Relationship::ParentOf));

    let plain = declaration("/abs/b.jpg", None, None);
    let ingredient = resolve_ingredient(&plain, "base", &found(&DOG_JPG)).unwrap();
    let summary = ingredient.summary();
    assert_eq!(summary.path, "/abs/b.jpg");
    assert_eq!(summary.title, None);
    assert_eq!(summary.format, "image/jpeg");
    assert_eq!(summary.relationship, None);
}

#[test]
fn an_error_of_the_codec_stops_the_resolution_before_the_relationship_is_read() {
    let declared = declaration("a.png", None, Some("inputTo"));
    let refused = finish_ingredient(
        &declared,
        "base/a.png".to_string(),
        "image/png",
        Err(c2pa::Error::UnsupportedType),
    );
    match refused {
        Err(PipelineError::Outside { operation, detail }) => {
            assert_eq!(operation, Operation::LoadIngredient);
            assert!(!detail.is_empty());
        }
        other => panic!("{:?}", other.map(|i| format!("{:?}", i.summary()))),
    }
    let loaded = finish_ingredient(
        &declared,
        "base/a.png".to_string(),
        "image/png",
        Ok(c2pa::Ingredient::new_v2("untitled", "image/png")),
    );
    assert!(matches!(loaded, Err(PipelineError::InvalidRelationship { value }) if value == "inputTo"));
    for other in [c2pa::Ingredient::default(), c2pa::Ingredient::new_v2("untitled", "image/jpeg")] {
        let plain = declaration("a.png", Some("A"), None);
        let loaded = finish_ingredient(&plain, "base/a.png".to_string(), "image/png", Ok(other));
        assert!(matches!(
            loaded,
            Err(PipelineError::Outside { operation: Operation::LoadIngredient, .. })
        ));
    }
    let plain = declaration("a.png", Some("A"), Some("parentOf"));
    let loaded = finish_ingredient(
        &plain,
        "base/a.png".to_string(),
        "image/png",
        Ok(c2pa::Ingredient::new_v2("untitled", "image/png")),
    )
    .ok()
    .unwrap();
    assert_eq!(loaded.summary().title.as_deref(), Some("A"));
    assert_eq!(loaded.summary().relationship, Some(Relationship::ParentOf));
}

#[test]
fn a_builder_starts_without_ingredients() {
    let builder = ManifestBuilder::new(THREE_INGREDIENTS).unwrap();
    assert_eq!(builder.title(), Some("Composite"));
    assert!(builder.records().is_empty());
    assert_eq!(builder.declarations().len(), 3);
    assert_eq!(builder.configuration().labels.len(), 3);
}

#[test]
fn a_configuration_that_the_codec_refuses_is_reported_as_such() {
    match ManifestBuilder::new(r#"{"title": 3}"#) {
        Err(PipelineError::Outside { operation, .. }) => assert_eq!(operation, Operation::ParseManifest),
        other => panic!("{:?}", other.map(|_| ())),
    }
    assert!(matches!(
        ManifestBuilder::new("[]"),
        Err(PipelineError::InvalidManifestSpec { field }) if field == "manifest"
    ));
}

#[test]
fn ingredients_are_added_in_order() {
    let mut builder = ManifestBuilder::new(ONE_ASSERTION).unwrap();
    for (file_path, bytes) in [("a.png", &DOG_PNG[..]), ("b.jpg", &DOG_JPG[..])] {
        let declared = declaration(file_path, Some(file_path), None);
        builder = builder.add_ingredient(resolve_ingredient(&declared, "", &found(bytes)).unwrap());
    }
    let paths: Vec<&str> = builder.records().iter().map(|r| r.path.as_str()).collect();
    assert_eq!(paths, vec!["a.png", "b.jpg"]);
}

#[test]
fn declared_ingredients_are_resolved_in_the_order_of_the_configuration() {
    let builder = ManifestBuilder::new(THREE_INGREDIENTS).unwrap();
    let sources = vec![found(&DOG_PNG), found(&DOG_JPG), found(&DOG_WEBP)];
    let builder = builder.with_declared_ingredients("base", &sources).unwrap();
    let records = builder.records();
    assert_eq!(records.len(), 3);
    assert_eq!(records[0].path, "base/parts/Parent.png");
    assert_eq!(records[0].relationship, Some(Relationship::ParentOf));
    assert_eq!(records[1].path, "/abs/Part.jpg");
    assert_eq!(records[1].format, "image/jpeg");
    assert_eq!(records[2].path, "base/Other.WEBP");
    assert_eq!(records[2].format, "image/webp");
    assert_eq!(records[2].title.as_deref(), Some("Another part"));
}

#[test]
fn the_first_ingredient_that_fails_stops_the_batch() {
    let sources = vec![found(&DOG_PNG), IngredientSource::Missing, IngredientSource::Missing];
    let builder = ManifestBuilder::new(THREE_INGREDIENTS).unwrap();
    match builder.with_declared_ingredients("base", &sources) {
        Err(PipelineError::IngredientNotFound { path }) => assert_eq!(path, "/abs/Part.jpg"),
        other => panic!("{:?}", other.map(|_| ())),
    }
    let builder = ManifestBuilder::new(THREE_INGREDIENTS).unwrap();
    match builder.with_declared_ingredients("base", &vec![found(&DOG_PNG)]) {
        Err(PipelineError::IngredientNotFound { path }) => assert_eq!(path, "/abs/Part.jpg"),
        other => panic!("{:?}", other.map(|_| ())),
    }
    let builder = ManifestBuilder::new(ONE_ASSERTION).unwrap();
    assert!(builder.with_declared_ingredients("base", &Vec::new()).is_ok());
}

#[test]
fn a_manifest_is_read_back_as_it_was_asked_for() {
    let builder = ManifestBuilder::new(ONE_ASSERTION).unwrap();
    let signed = sign(builder, "image/jpeg", &DOG_JPG).unwrap();
    let store = ManifestStore::open("image/jpeg", &signed).unwrap();
    let manifest = store.active_manifest().unwrap();
    assert_eq!(manifest.title(), Some("T"));
    let assertions = manifest.assertions();
    assert_eq!(assertions.len(), 1);
    assert_eq!(assertions[0].label(), Some("c2pa.asset-type"));
    assert!(assertions[0].payload().is_some());
    assert_eq!(store.manifest_count(), 1);
    assert!(store.is_signed());
}

#[test]
fn a_manifest_with_its_actions_is_found_valid() {
    let builder = ManifestBuilder::new(WITH_ACTIONS).unwrap();
    let signed = sign(builder, "image/jpeg", &DOG_JPG).unwrap();
    let store = ManifestStore::open("image/jpeg", &signed).unwrap();
    assert_eq!(store.validation_state(), ValidationState::Valid);
    assert_eq!(store.active_manifest().unwrap().title(), Some("Made"));
}

#[test]
fn a_manifest_carries_title_labels_and_ingredients_through_signing() {
    let builder = ManifestBuilder::new(THREE_INGREDIENTS).unwrap();
    let sources = vec![found(&DOG_PNG), found(&DOG_JPG), found(&DOG_WEBP)];
    let builder = builder.with_declared_ingredients("base", &sources).unwrap();
    let spec = c2pa_testfile_maker::manifest::ManifestSpec::parse(THREE_INGREDIENTS).unwrap();
    let records: Vec<_> = builder
        .records()
        .iter()
        .map(|r| c2pa_testfile_maker::ingredient::IngredientSummary {
            path: r.path.clone(),
            title: r.title.clone(),
            format: r.format.clone(),
            relationship: r.relationship,
        })
        .collect();
    for (format, asset) in [("image/jpeg", &DOG_JPG[..]), ("image/png", &DOG_PNG[..]), ("image/webp", &DOG_WEBP[..])] {
        let builder = ManifestBuilder::new(THREE_INGREDIENTS).unwrap();
        let builder = builder.with_declared_ingredients("base", &sources).unwrap();
        let signed = sign(builder, format, asset).unwrap();
        let store = ManifestStore::open(format, &signed).unwrap();
        let manifest = store.active_manifest().unwrap();
        assert!(manifest.has_title(&spec.title));
        assert!(manifest.has_labels(&spec.labels));
        assert!(manifest.carries(&spec, &records));

        let labels: Vec<_> = manifest.assertions().iter().map(|a| a.label().unwrap().to_string()).collect();
        assert_eq!(labels, vec!["org.example.first", "c2pa.asset-ref", "org.example.third"]);

        assert!(!manifest.has_title(&Some("Another title".to_string())));
        assert!(!manifest.has_title(&None));
        assert!(!manifest.has_labels(&vec!["c2pa.asset-ref".to_string()]));
        assert!(!manifest.carries(&spec, &records[..2].iter().map(|r| c2pa_testfile_maker::ingredient::IngredientSummary {
            path: r.path.clone(),
            title: r.title.clone(),
            format: r.format.clone(),
            relationship: r.relationship,
        }).collect()));
    }
}

#[test]
fn the_first_assertion_of_a_label_is_the_one_found() {
    let report = r#"{
        "active_manifest": "m",
        "manifests": {"m": {"title": "T", "assertions": [
            {"label": "a", "data": 1},
            {"label": "b", "data": 2},
            {"data": 3},
            {"label": "b", "data": 4}
        ]}},
        "validation_state": "Trusted"
    }"#;
    let store = ManifestStore::from_report_text(report).unwrap();
    assert_eq!(store.json(), report);
    assert_eq!(store.active_label(), Some("m"));
    assert_eq!(store.validation_state(), ValidationState::Trusted);
    let manifest = store.get_manifest("m").unwrap();
    assert_eq!(manifest.assertions().len(), 4);
    let found = manifest.find_assertion("b").unwrap();
    assert!(matches!(found.payload(), Some(c2pa_testfile_maker::json::Json::Number(n)) if n == "2"));
    assert!(manifest.find_assertion("c").is_none());
    assert!(manifest.find_assertion("").is_none());
    assert!(store.get_manifest("n").is_none());
}

#[test]
fn a_store_without_manifests_has_no_active_label() {
    for report in [r#"{}"#, r#"{"manifests": {}}"#, r#"{"manifests": [], "validation_state": "Invalid"}"#] {
        let store = ManifestStore::from_report_text(report).unwrap();
        assert_eq!(store.manifest_count(), 0);
        assert_eq!(store.active_label(), None);
        assert!(store.active_manifest().is_none());
        assert!(!store.is_signed());
    }
    let store = ManifestStore::from_report_text(r#"{"manifests": {"m": {}}, "validation_state": "?"}"#).unwrap();
    assert_eq!(store.manifest_count(), 1);
    assert_eq!(store.active_label(), None);
    assert_eq!(store.validation_state(), ValidationState::Unknown);
}

#[test]
fn a_report_whose_active_manifest_is_missing_is_refused() {
    for report in [r#"{"active_manifest": "m"}"#, r#"{"active_manifest": "m", "manifests": {"n": {}}}"#, "not json"] {
        match ManifestStore::from_report_text(report) {
            Err(PipelineError::Outside { operation, .. }) => assert_eq!(operation, Operation::ReadStore),
            other => panic!("{:?}", other.map(|_| ())),
        }
    }
}

#[test]
fn an_asset_that_was_never_signed_has_no_store() {
    for (format, asset) in [("image/jpeg", &DOG_JPG[..]), ("image/png", &DOG_PNG[..]), ("image/webp", &DOG_WEBP[..])] {
        assert!(matches!(ManifestStore::open(format, asset), Err(PipelineError::NoEmbeddedManifest)));
    }
    assert_eq!(ManifestStore::extraction_failure(Extracted::Absent), Some(PipelineError::NoEmbeddedManifest));
    assert_eq!(ManifestStore::extraction_failure(Extracted::Store(vec![1])), None);
    let error = ManifestStore::extraction_failure(Extracted::Unreadable { detail: "broken".to_string() });
    assert_eq!(error.unwrap().describe(), "Failed to read manifest store: broken");
}

#[test]
fn an_asset_that_cannot_be_read_is_an_error_of_the_codec() {
    match ManifestStore::open("image/jpeg", b"no image at all") {
        Err(PipelineError::Outside { operation, .. }) => assert_eq!(operation, Operation::ReadStore),
        Err(PipelineError::NoEmbeddedManifest) => {}
        other => panic!("{:?}", other.map(|_| ())),
    }
    assert!(ManifestStore::open("application/unknown", &DOG_JPG).is_err());
}

#[test]
fn a_manifest_with_an_unresolved_ingredient_is_not_signed() {
    let builder = ManifestBuilder::new(THREE_INGREDIENTS).unwrap();
    assert_eq!(builder.resolved_count(), 0);
    assert_eq!(
        sign(builder, "image/png", &DOG_PNG),
        Err(PipelineError::IngredientUnresolved { file_path: "parts/Parent.png".to_string() })
    );

    let builder = ManifestBuilder::new(THREE_INGREDIENTS).unwrap();
    let builder = builder.resolve_next("base", &found(&DOG_PNG)).unwrap();
    assert_eq!(builder.resolved_count(), 1);
    let credential = load_credential(es256_chain(), es256_key(), SigningAlgorithm::Es256).ok().unwrap();
    assert_eq!(
        builder.sign_and_embed(credential, "image/png", &DOG_PNG),
        Err(PipelineError::IngredientUnresolved { file_path: "/abs/Part.jpg".to_string() })
    );

    let builder = ManifestBuilder::new(THREE_INGREDIENTS).unwrap();
    let extra = resolve_ingredient(&declaration("x.png", None, None), "", &found(&DOG_PNG)).unwrap();
    let builder = builder.add_ingredient(extra);
    assert_eq!(builder.resolved_count(), 0);
    assert!(matches!(sign(builder, "image/png", &DOG_PNG), Err(PipelineError::IngredientUnresolved { .. })));
}

#[test]
fn declarations_are_resolved_one_after_the_other() {
    let mut builder = ManifestBuilder::new(THREE_INGREDIENTS).unwrap();
    for (count, bytes) in [&DOG_PNG[..], &DOG_JPG[..], &DOG_WEBP[..], &DOG_PNG[..]].iter().enumerate() {
        assert_eq!(builder.resolved_count(), count.min(3));
        assert_eq!(builder.pending().is_some(), count < 3);
        builder = builder.resolve_next("base", &found(bytes)).unwrap();
    }
    assert_eq!(builder.records().len(), 3);
    let refused = ManifestBuilder::new(THREE_INGREDIENTS).unwrap().resolve_next("base", &IngredientSource::Missing);
    assert_eq!(
        refused.err(),
        Some(PipelineError::IngredientNotFound { path: "base/parts/Parent.png".to_string() })
    );
}

#[test]
fn bytes_without_a_new_store_do_not_count_as_signed() {
    let unsigned = ManifestBuilder::confirm("image/png", &DOG_PNG, Ok(DOG_PNG.to_vec()));
    assert!(matches!(unsigned, Err(PipelineError::Outside { operation: Operation::SignAndEmbed, .. })));
    let empty = ManifestBuilder::confirm("image/png", &DOG_PNG, Ok(Vec::new()));
    assert!(matches!(empty, Err(PipelineError::Outside { operation: Operation::SignAndEmbed, .. })));
    let failed = ManifestBuilder::confirm("image/png", &DOG_PNG, Err(PipelineError::MalformedKey));
    assert_eq!(failed, Err(PipelineError::MalformedKey));

    let signed = sign(ManifestBuilder::new(WITH_ACTIONS).unwrap(), "image/png", &DOG_PNG).unwrap();
    assert_eq!(ManifestStore::extract("image/png", &DOG_PNG), Extracted::Absent);
    assert!(matches!(ManifestStore::extract("image/png", &signed), Extracted::Store(_)));
    assert_eq!(ManifestBuilder::confirm("image/png", &DOG_PNG, Ok(signed.clone())), Ok(signed.clone()));
    let same = ManifestBuilder::confirm("image/png", &signed, Ok(signed.clone()));
    assert!(matches!(same, Err(PipelineError::Outside { operation: Operation::SignAndEmbed, .. })));
    assert!(matches!(
        ManifestStore::extract("application/unknown", &signed),
        Extracted::Unreadable { .. }
    ));
}

#[test]
fn a_credential_that_makes_no_signer_is_reported_as_such() {
    let key = pem_text("PRIVATE KEY", &ES256_PRIVATE_KEY[..ES256_PRIVATE_KEY.len()]);
    let chain = pem_text("CERTIFICATE", &[0x30, 0x03, 0x02, 0x01, 0x00]);
    let credential = load_credential(chain, key, SigningAlgorithm::Es256).ok().unwrap();
    let builder = ManifestBuilder::new(WITH_ACTIONS).unwrap();
    match builder.sign_and_embed(credential, "image/png", &DOG_PNG) {
        Err(PipelineError::Outside { operation, .. }) => {
            assert!(operation == Operation::CreateSigner || operation == Operation::SignAndEmbed)
        }
        other => panic!("{:?}", other.map(|b| b.len())),
    }
}

#[test]
fn the_callback_is_asked_once_for_one_signing_operation() {
    let calls = Arc::new(AtomicUsize::new(0));
    let seen = calls.clone();
    let key = ed25519_key();
    let builder = ManifestBuilder::new(ONE_ASSERTION).unwrap();
    let signed = builder.sign_and_embed_with(
        SigningAlgorithm::Ed25519,
        &ed25519_chain(),
        move |data: &[u8]| {
            seen.fetch_add(1, Ordering::SeqCst);
            ed_sign(data, &key)
        },
        "image/png",
        &DOG_PNG,
    );
    assert!(signed.is_ok());
    assert_eq!(calls.load(Ordering::SeqCst), 1);
}

#[test]
fn a_callback_that_fails_leaves_no_signed_asset() {
    let builder = ManifestBuilder::new(ONE_ASSERTION).unwrap();
    let signed = builder.sign_and_embed_with(
        SigningAlgorithm::Ed25519,
        &ed25519_chain(),
        |_data: &[u8]| Err(PipelineError::MalformedKey),
        "image/png",
        &DOG_PNG,
    );
    match signed {
        Err(PipelineError::Outside { operation, .. }) => assert_eq!(operation, Operation::SignAndEmbed),
        other => panic!("{:?}", other.map(|b| b.len())),
    }
}

#[test]
fn a_signature_of_another_key_is_found_invalid() {
    let builder = ManifestBuilder::new(WITH_ACTIONS).unwrap();
    let mut der = vec![0x30, 0x2e, 0x02, 0x01, 0x00, 0x30, 0x05, 0x06, 0x03, 0x2b, 0x65, 0x70];
    der.extend([0x04, 0x22, 0x04, 0x20]);
    der.extend([7u8; 32]);
    let other_key = pem_text("PRIVATE KEY", &der);
    let signed = builder.sign_and_embed_with(
        SigningAlgorithm::Ed25519,
        &ed25519_chain(),
        move |data: &[u8]| ed_sign(data, &other_key),
        "image/png",
        &DOG_PNG,
    );
    let store = ManifestStore::open("image/png", &signed.unwrap()).unwrap();
    assert_eq!(store.validation_state(), ValidationState::Invalid);
}

#[test]
fn key_material_in_process_signs_for_its_algorithm() {
    for (algorithm, chain, key) in [
        (SigningAlgorithm::Es256, es256_chain(), es256_key()),
        (SigningAlgorithm::Ed25519, ed25519_chain(), ed25519_key()),
    ] {
        let credential = load_credential(chain, key, algorithm).ok().unwrap();
        let builder = ManifestBuilder::new(WITH_ACTIONS).unwrap();
        let signed = builder.sign_and_embed(credential, "image/jpeg", &DOG_JPG).unwrap();
        assert!(signed.len() > DOG_JPG.len());
        let store = ManifestStore::open("image/jpeg", &signed).unwrap();
        assert_eq!(store.active_manifest().unwrap().title(), Some("Made"));
        assert_eq!(store.validation_state(), ValidationState::Valid);
    }
}

#[test]
fn a_chain_of_der_certificates_signs_as_its_pem_text_does() {
    let der = [&ES256_SIGNER_CERT[..], &ES256_ROOT_CERT[..]].concat();
    let credential = load_credential(der, es256_key(), SigningAlgorithm::Es256).ok().unwrap();
    assert_eq!(credential.cert_chain(), es256_chain());
    let builder = ManifestBuilder::new(WITH_ACTIONS).unwrap();
    let signed = builder.sign_and_embed(credential, "image/png", &DOG_PNG).unwrap();
    let store = ManifestStore::open("image/png", &signed).unwrap();
    assert_eq!(store.validation_state(), ValidationState::Valid);
}

#[test]
fn key_material_for_another_algorithm_does_not_sign() {
    let refused = load_credential(es256_chain(), es256_key(), SigningAlgorithm::Ps256);
    assert_eq!(refused.err(), Some(PipelineError::AlgorithmMismatch));
    let refused = load_credential(es256_chain(), es256_key(), SigningAlgorithm::Es384);
    assert_eq!(refused.err(), Some(PipelineError::AlgorithmMismatch));
    let credential = load_credential(ed25519_chain(), es256_key(), SigningAlgorithm::Es256).ok().unwrap();
    let builder = ManifestBuilder::new(WITH_ACTIONS).unwrap();
    let signed = builder.sign_and_embed(credential, "image/jpeg", &DOG_JPG).unwrap();
    let store = ManifestStore::open("image/jpeg", &signed).unwrap();
    assert_eq!(store.validation_state(), ValidationState::Invalid);
    let refused = ManifestBuilder::outcome(Err(c2pa::Error::CoseSignature));
    assert!(matches!(refused, Err(PipelineError::Outside { operation: Operation::SignAndEmbed, .. })));
    assert_eq!(ManifestBuilder::outcome(Ok(vec![1, 2, 3])).unwrap(), vec![1, 2, 3]);
}

#[test]
fn a_signed_asset_can_be_signed_again() {
    let builder = ManifestBuilder::new(ONE_ASSERTION).unwrap();
    let first = sign(builder, "image/png", &DOG_PNG).unwrap();
    let first_label = ManifestStore::open("image/png", &first).unwrap().active_label().unwrap().to_string();

    let again = r#"{"title": "Second", "ingredients_from_files": [{"file_path": "first.png", "relationship": "parentOf"}]}"#;
    let builder = ManifestBuilder::new(again).unwrap();
    let builder = builder.with_declared_ingredients("", &vec![found(&first)]).unwrap();
    let second = sign(builder, "image/png", &first).unwrap();
    let store = ManifestStore::open("image/png", &second).unwrap();
    assert_eq!(store.manifest_count(), 2);
    assert_ne!(store.active_label().unwrap(), first_label);
    assert_eq!(store.active_manifest().unwrap().title(), Some("Second"));
    assert_eq!(store.get_manifest(&first_label).unwrap().title(), Some("T"));
}

/// The end-entity certificate of the Ed25519 test chain, in DER.
const ED25519_SIGNER_CERT: [u8; 453] = [
    48, 130, 1, 193, 48, 130, 1, 115, 160, 3, 2, 1, 2, 2, 20, 3, 33, 55, 219, 203, 26, 95, 242, 184,
    77, 18, 6, 19, 208, 245, 253, 87, 174, 182, 140, 48, 5, 6, 3, 43, 101, 112, 48, 67, 49, 11, 48,
    9, 6, 3, 85, 4, 6, 19, 2, 85, 83, 49, 29, 48, 27, 6, 3, 85, 4, 10, 12, 20, 84, 101, 115, 116,
    102, 105, 108, 101, 32, 77, 97, 107, 101, 114, 32, 84, 101, 115, 116, 115, 49, 21, 48, 19, 6, 3,
    85, 4, 3, 12, 12, 69, 100, 50, 53, 53, 49, 57, 32, 82, 111, 111, 116, 48, 32, 23, 13, 50, 48,
    48, 49, 48, 49, 48, 48, 48, 48, 48, 48, 90, 24, 15, 50, 48, 57, 57, 49, 50, 51, 49, 48, 48, 48,
    48, 48, 48, 90, 48, 69, 49, 11, 48, 9, 6, 3, 85, 4, 6, 19, 2, 85, 83, 49, 29, 48, 27, 6, 3, 85,
    4, 10, 12, 20, 84, 101, 115, 116, 102, 105, 108, 101, 32, 77, 97, 107, 101, 114, 32, 84, 101,
    115, 116, 115, 49, 23, 48, 21, 6, 3, 85, 4, 3, 12, 14, 69, 100, 50, 53, 53, 49, 57, 32, 83, 105,
    103, 110, 101, 114, 48, 42, 48, 5, 6, 3, 43, 101, 112, 3, 33, 0, 2, 53, 161, 33, 191, 229, 167,
    88, 59, 26, 96, 200, 28, 81, 157, 241, 27, 248, 134, 40, 127, 104, 247, 5, 226, 166, 172, 197,
    15, 90, 142, 148, 163, 117, 48, 115, 48, 12, 6, 3, 85, 29, 19, 1, 1, 255, 4, 2, 48, 0, 48, 14,
    6, 3, 85, 29, 15, 1, 1, 255, 4, 4, 3, 2, 7, 128, 48, 19, 6, 3, 85, 29, 37, 4, 12, 48, 10, 6, 8,
    43, 6, 1, 5, 5, 7, 3, 4, 48, 29, 6, 3, 85, 29, 14, 4, 22, 4, 20, 126, 237, 150, 114, 138, 18,
    22, 216, 197, 82, 102, 125, 86, 97, 3, 146, 90, 136, 116, 72, 48, 31, 6, 3, 85, 29, 35, 4, 24,
    48, 22, 128, 20, 45, 249, 91, 182, 101, 8, 160, 30, 122, 18, 132, 6, 221, 82, 82, 137, 244, 50,
    40, 7, 48, 5, 6, 3, 43, 101, 112, 3, 65, 0, 203, 114, 3, 13, 75, 118, 64, 55, 224, 181, 158,
    154, 211, 33, 177, 91, 30, 84, 43, 14, 48, 45, 224, 175, 51, 41, 20, 27, 23, 1, 55, 206, 165,
    221, 44, 67, 85, 173, 7, 127, 110, 111, 209, 68, 200, 60, 26, 187, 231, 74, 31, 173, 165, 126,
    223, 62, 61, 100, 106, 172, 100, 226, 166, 3
];

/// The root certificate of the Ed25519 test chain, in DER.
const ED25519_ROOT_CERT: [u8; 400] = [
    48, 130, 1, 140, 48, 130, 1, 62, 160, 3, 2, 1, 2, 2, 20, 110, 25, 90, 92, 183, 216, 198, 253,
    69, 22, 71, 57, 56, 12, 97, 59, 25, 214, 32, 136, 48, 5, 6, 3, 43, 101, 112, 48, 67, 49, 11, 48,
    9, 6, 3, 85, 4, 6, 19, 2, 85, 83, 49, 29, 48, 27, 6, 3, 85, 4, 10, 12, 20, 84, 101, 115, 116,
    102, 105, 108, 101, 32, 77, 97, 107, 101, 114, 32, 84, 101, 115, 116, 115, 49, 21, 48, 19, 6, 3,
    85, 4, 3, 12, 12, 69, 100, 50, 53, 53, 49, 57, 32, 82, 111, 111, 116, 48, 32, 23, 13, 50, 48,
    48, 49, 48, 49, 48, 48, 48, 48, 48, 48, 90, 24, 15, 50, 48, 57, 57, 49, 50, 51, 49, 48, 48, 48,
    48, 48, 48, 90, 48, 67, 49, 11, 48, 9, 6, 3, 85, 4, 6, 19, 2, 85, 83, 49, 29, 48, 27, 6, 3, 85,
    4, 10, 12, 20, 84, 101, 115, 116, 102, 105, 108, 101, 32, 77, 97, 107, 101, 114, 32, 84, 101,
    115, 116, 115, 49, 21, 48, 19, 6, 3, 85, 4, 3, 12, 12, 69, 100, 50, 53, 53, 49, 57, 32, 82, 111,
    111, 116, 48, 42, 48, 5, 6, 3, 43, 101, 112, 3, 33, 0, 101, 185, 78, 53, 183, 107, 198, 147, 26,
    98, 222, 183, 232, 182, 157, 72, 70, 25, 127, 187, 54, 34, 212, 106, 214, 93, 93, 206, 130, 243,
    31, 111, 163, 66, 48, 64, 48, 15, 6, 3, 85, 29, 19, 1, 1, 255, 4, 5, 48, 3, 1, 1, 255, 48, 14,
    6, 3, 85, 29, 15, 1, 1, 255, 4, 4, 3, 2, 1, 6, 48, 29, 6, 3, 85, 29, 14, 4, 22, 4, 20, 45, 249,
    91, 182, 101, 8, 160, 30, 122, 18, 132, 6, 221, 82, 82, 137, 244, 50, 40, 7, 48, 5, 6, 3, 43,
    101, 112, 3, 65, 0, 159, 108, 18, 254, 47, 43, 38, 217, 65, 253, 53, 178, 150, 110, 181, 174,
    203, 184, 161, 172, 206, 61, 249, 100, 254, 163, 163, 41, 43, 181, 204, 169, 198, 155, 42, 179,
    198, 42, 84, 91, 159, 115, 21, 51, 33, 155, 77, 185, 65, 37, 66, 227, 183, 141, 42, 222, 111,
    189, 116, 107, 192, 70, 86, 9
];

/// The seed of the private key of the Ed25519 test signer.
const ED25519_SEED: [u8; 32] = [
    75, 80, 46, 242, 15, 132, 162, 37, 54, 13, 191, 45, 247, 237, 152, 131, 96, 209, 254, 166, 198,
    225, 233, 34, 56, 69, 217, 60, 212, 135, 189, 78
];

/// The end-entity certificate of the ES256 test chain, in DER.
const ES256_SIGNER_CERT: [u8; 513] = [
    48, 130, 1, 253, 48, 130, 1, 163, 160, 3, 2, 1, 2, 2, 20, 72, 11, 14, 83, 154, 125, 237, 196,
    26, 60, 26, 181, 22, 23, 243, 169, 2, 142, 250, 124, 48, 10, 6, 8, 42, 134, 72, 206, 61, 4, 3,
    2, 48, 65, 49, 11, 48, 9, 6, 3, 85, 4, 6, 19, 2, 85, 83, 49, 29, 48, 27, 6, 3, 85, 4, 10, 12,
    20, 84, 101, 115, 116, 102, 105, 108, 101, 32, 77, 97, 107, 101, 114, 32, 84, 101, 115, 116,
    115, 49, 19, 48, 17, 6, 3, 85, 4, 3, 12, 10, 69, 83, 50, 53, 54, 32, 82, 111, 111, 116, 48, 32,
    23, 13, 50, 48, 48, 49, 48, 49, 48, 48, 48, 48, 48, 48, 90, 24, 15, 50, 48, 57, 57, 49, 50, 51,
    49, 48, 48, 48, 48, 48, 48, 90, 48, 67, 49, 11, 48, 9, 6, 3, 85, 4, 6, 19, 2, 85, 83, 49, 29,
    48, 27, 6, 3, 85, 4, 10, 12, 20, 84, 101, 115, 116, 102, 105, 108, 101, 32, 77, 97, 107, 101,
    114, 32, 84, 101, 115, 116, 115, 49, 21, 48, 19, 6, 3, 85, 4, 3, 12, 12, 69, 83, 50, 53, 54, 32,
    83, 105, 103, 110, 101, 114, 48, 89, 48, 19, 6, 7, 42, 134, 72, 206, 61, 2, 1, 6, 8, 42, 134,
    72, 206, 61, 3, 1, 7, 3, 66, 0, 4, 21, 246, 91, 253, 148, 245, 31, 192, 124, 85, 135, 0, 190,
    120, 61, 116, 255, 168, 42, 53, 231, 66, 4, 125, 28, 135, 232, 68, 158, 40, 22, 131, 135, 77,
    216, 125, 90, 135, 73, 84, 33, 196, 7, 155, 28, 179, 61, 78, 112, 227, 106, 5, 22, 150, 173,
    185, 121, 248, 164, 32, 200, 80, 80, 35, 163, 117, 48, 115, 48, 12, 6, 3, 85, 29, 19, 1, 1, 255,
    4, 2, 48, 0, 48, 14, 6, 3, 85, 29, 15, 1, 1, 255, 4, 4, 3, 2, 7, 128, 48, 19, 6, 3, 85, 29, 37,
    4, 12, 48, 10, 6, 8, 43, 6, 1, 5, 5, 7, 3, 4, 48, 29, 6, 3, 85, 29, 14, 4, 22, 4, 20, 0, 23, 48,
    99, 70, 77, 67, 102, 157, 150, 161, 17, 117, 84, 152, 181, 217, 183, 170, 61, 48, 31, 6, 3, 85,
    29, 35, 4, 24, 48, 22, 128, 20, 29, 77, 220, 140, 210, 181, 65, 77, 109, 244, 114, 233, 191, 50,
    40, 65, 98, 29, 225, 55, 48, 10, 6, 8, 42, 134, 72, 206, 61, 4, 3, 2, 3, 72, 0, 48, 69, 2, 32,
    83, 133, 25, 16, 11, 129, 165, 235, 149, 187, 74, 0, 172, 98, 200, 166, 132, 220, 235, 98, 17,
    17, 167, 226, 130, 108, 227, 186, 112, 58, 203, 101, 2, 33, 0, 171, 66, 136, 134, 176, 226, 11,
    122, 3, 220, 138, 187, 238, 21, 89, 140, 83, 169, 108, 64, 95, 242, 149, 177, 187, 254, 25, 31,
    198, 68, 131, 27
];

/// The root certificate of the ES256 test chain, in DER.
const ES256_ROOT_CERT: [u8; 460] = [
    48, 130, 1, 200, 48, 130, 1, 110, 160, 3, 2, 1, 2, 2, 20, 75, 159, 249, 68, 132, 35, 227, 241,
    26, 1, 58, 241, 146, 152, 204, 183, 0, 43, 110, 34, 48, 10, 6, 8, 42, 134, 72, 206, 61, 4, 3, 2,
    48, 65, 49, 11, 48, 9, 6, 3, 85, 4, 6, 19, 2, 85, 83, 49, 29, 48, 27, 6, 3, 85, 4, 10, 12, 20,
    84, 101, 115, 116, 102, 105, 108, 101, 32, 77, 97, 107, 101, 114, 32, 84, 101, 115, 116, 115,
    49, 19, 48, 17, 6, 3, 85, 4, 3, 12, 10, 69, 83, 50, 53, 54, 32, 82, 111, 111, 116, 48, 32, 23,
    13, 50, 48, 48, 49, 48, 49, 48, 48, 48, 48, 48, 48, 90, 24, 15, 50, 48, 57, 57, 49, 50, 51, 49,
    48, 48, 48, 48, 48, 48, 90, 48, 65, 49, 11, 48, 9, 6, 3, 85, 4, 6, 19, 2, 85, 83, 49, 29, 48,
    27, 6, 3, 85, 4, 10, 12, 20, 84, 101, 115, 116, 102, 105, 108, 101, 32, 77, 97, 107, 101, 114,
    32, 84, 101, 115, 116, 115, 49, 19, 48, 17, 6, 3, 85, 4, 3, 12, 10, 69, 83, 50, 53, 54, 32, 82,
    111, 111, 116, 48, 89, 48, 19, 6, 7, 42, 134, 72, 206, 61, 2, 1, 6, 8, 42, 134, 72, 206, 61, 3,
    1, 7, 3, 66, 0, 4, 188, 90, 18, 91, 213, 214, 114, 98, 107, 4, 88, 228, 126, 249, 72, 249, 215,
    147, 160, 56, 14, 161, 156, 174, 77, 154, 127, 109, 120, 106, 240, 237, 147, 9, 88, 12, 212, 28,
    149, 221, 77, 118, 73, 161, 115, 211, 128, 211, 166, 126, 127, 8, 17, 133, 234, 245, 167, 181,
    6, 215, 223, 35, 211, 34, 163, 66, 48, 64, 48, 15, 6, 3, 85, 29, 19, 1, 1, 255, 4, 5, 48, 3, 1,
    1, 255, 48, 14, 6, 3, 85, 29, 15, 1, 1, 255, 4, 4, 3, 2, 1, 6, 48, 29, 6, 3, 85, 29, 14, 4, 22,
    4, 20, 29, 77, 220, 140, 210, 181, 65, 77, 109, 244, 114, 233, 191, 50, 40, 65, 98, 29, 225, 55,
    48, 10, 6, 8, 42, 134, 72, 206, 61, 4, 3, 2, 3, 72, 0, 48, 69, 2, 33, 0, 244, 109, 128, 188, 94,
    84, 247, 152, 48, 83, 192, 163, 219, 62, 110, 85, 123, 68, 65, 160, 158, 3, 82, 43, 152, 127,
    44, 204, 154, 8, 3, 90, 2, 32, 89, 21, 247, 17, 248, 102, 239, 30, 66, 104, 150, 32, 208, 65,
    108, 157, 23, 28, 169, 69, 120, 48, 201, 212, 222, 61, 88, 108, 132, 128, 232, 163
];

/// The private key of the ES256 test signer, PKCS#8 in DER.
const ES256_PRIVATE_KEY: [u8; 138] = [
    48, 129, 135, 2, 1, 0, 48, 19, 6, 7, 42, 134, 72, 206, 61, 2, 1, 6, 8, 42, 134, 72, 206, 61, 3,
    1, 7, 4, 109, 48, 107, 2, 1, 1, 4, 32, 75, 176, 64, 57, 67, 219, 181, 43, 193, 48, 179, 171, 33,
    140, 33, 9, 158, 179, 35, 212, 136, 15, 90, 217, 33, 136, 126, 3, 230, 222, 192, 87, 161, 68, 3,
    66, 0, 4, 21, 246, 91, 253, 148, 245, 31, 192, 124, 85, 135, 0, 190, 120, 61, 116, 255, 168, 42,
    53, 231, 66, 4, 125, 28, 135, 232, 68, 158, 40, 22, 131, 135, 77, 216, 125, 90, 135, 73, 84, 33,
    196, 7, 155, 28, 179, 61, 78, 112, 227, 106, 5, 22, 150, 173, 185, 121, 248, 164, 32, 200, 80,
    80, 35
];

/// A JPEG image of one pixel.
const DOG_JPG: [u8; 159] = [
    255, 216, 255, 224, 0, 16, 74, 70, 73, 70, 0, 1, 1, 0, 0, 1, 0, 1, 0, 0, 255, 219, 0, 67, 0, 1,
    1, 1, 1, 1, 1, 1, 1, 1, 1, 1, 1, 1, 1, 1, 1, 1, 1, 1, 1, 1, 1, 1, 1, 1, 1, 1, 1, 1, 1, 1, 1, 1,
    1, 1, 1, 1, 1, 1, 1, 1, 1, 1, 1, 1, 1, 1, 1, 1, 1, 1, 1, 1, 1, 1, 1, 1, 1, 1, 1, 1, 1, 1, 1,
    255, 192, 0, 11, 8, 0, 1, 0, 1, 1, 1, 17, 0, 255, 196, 0, 20, 0, 1, 0, 0, 0, 0, 0, 0, 0, 0, 0,
    0, 0, 0, 0, 0, 0, 0, 255, 196, 0, 20, 16, 1, 0, 0, 0, 0, 0, 0, 0, 0, 0, 0, 0, 0, 0, 0, 0, 0,
    255, 218, 0, 8, 1, 1, 0, 0, 63, 0, 63, 255, 217
];

/// A PNG image of eight by eight pixels.
const DOG_PNG: [u8; 74] = [
    137, 80, 78, 71, 13, 10, 26, 10, 0, 0, 0, 13, 73, 72, 68, 82, 0, 0, 0, 8, 0, 0, 0, 8, 8, 2, 0,
    0, 0, 75, 109, 41, 220, 0, 0, 0, 17, 73, 68, 65, 84, 120, 218, 99, 168, 136, 178, 193, 138, 24,
    134, 150, 4, 0, 111, 78, 67, 129, 131, 217, 184, 166, 0, 0, 0, 0, 73, 69, 78, 68, 174, 66, 96,
    130
];

/// A WebP image of one pixel.
const DOG_WEBP: [u8; 34] = [
    82, 73, 70, 70, 26, 0, 0, 0, 87, 69, 66, 80, 86, 80, 56, 76, 13, 0, 0, 0, 47, 0, 0, 0, 16, 7,
    16, 17, 17, 136, 136, 254, 7, 0
];
