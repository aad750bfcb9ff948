use lingua_gate::error::AppError;
use lingua_gate::registry::{
    build_config, classify_file, collect_model_files, discover, parse_pair_key, prepare_model,
    registry_of, FileRole, ModelDir, ModelFile,
};

fn file(name: &str) -> ModelFile {
    ModelFile { name: name.to_string(), path: format!("/models/enzh/{}", name) }
}

fn full_dir(key: &str) -> ModelDir {
    ModelDir {
        pair_key: key.to_string(),
        files: vec![
            file("model.enzh.intgemm.alphas.bin"),
            file("srcvocab.enzh.spm"),
            file("trgvocab.enzh.spm"),
            file("lex.50.50.enzh.s2t.bin"),
            file("README.md"),
        ],
    }
}

#[test]
fn files_are_classified_by_name() {
    assert_eq!(classify_file("srcvocab.enzh.spm"), FileRole::SourceVocab);
    assert_eq!(classify_file("trgvocab.enzh.spm"), FileRole::TargetVocab);
    assert_eq!(classify_file("vocab.ende.spm"), FileRole::SharedVocab);
    assert_eq!(classify_file("model.ende.intgemm8.bin"), FileRole::Weights);
    assert_eq!(classify_file("model.ende.intgemm.alphas.bin"), FileRole::Weights);
    assert_eq!(classify_file("lex.ende.s2t.bin"), FileRole::Shortlist);
    assert_eq!(classify_file("notes.txt"), FileRole::Other);
    assert_eq!(classify_file(".spm"), FileRole::SharedVocab);
}

#[test]
fn shared_vocabulary_serves_both_sides() {
    let files = collect_model_files(&vec![file("vocab.ende.spm"), file("model.intgemm8.bin")]);
    assert_eq!(files.src_vocab_path, "/models/enzh/vocab.ende.spm");
    assert_eq!(files.trg_vocab_path, "/models/enzh/vocab.ende.spm");
    assert_eq!(files.model_path, "/models/enzh/model.intgemm8.bin");
    assert_eq!(files.shortlist_path, "");
}

#[test]
fn config_names_the_four_files() {
    let c = build_config("m.bin", "s.spm", "t.spm", "l.bin");
    assert!(c.starts_with("beam-size: 1\n"));
    assert!(c.contains("gemm-precision: int8shiftAll\n"));
    assert!(c.ends_with("models: [m.bin]\nvocabs: [s.spm, t.spm]\nshortlist: [l.bin, false]"));
}

#[test]
fn pair_keys_parse_into_two_codes() {
    let p = parse_pair_key("enzh").ok().unwrap();
    assert_eq!(p.source, "en");
    assert_eq!(p.target, "zh");
    for bad in ["enz", "enzhx", "", "xxen", "enxx"] {
        match parse_pair_key(bad) {
            Err(AppError::InvalidPairKey { pair }) => assert_eq!(pair, bad),
            _ => panic!("accepted {}", bad),
        }
    }
}

#[test]
fn complete_directory_prepares() {
    let b = prepare_model(&full_dir("enzh")).ok().unwrap();
    assert_eq!(b.pair_key, "enzh");
    assert_eq!(b.pair.source, "en");
    assert_eq!(b.pair.target, "zh");
    assert!(b.config.contains("models: [/models/enzh/model.enzh.intgemm.alphas.bin]"));
    assert!(b.config.contains("shortlist: [/models/enzh/lex.50.50.enzh.s2t.bin, false]"));
}

#[test]
fn missing_file_names_the_pair() {
    let mut d = full_dir("enzh");
    d.files.retain(|f| !f.name.ends_with(".s2t.bin"));
    match prepare_model(&d) {
        Err(AppError::MissingModelFiles { pair }) => assert_eq!(pair, "enzh"),
        _ => panic!("expected missing files"),
    }
}

#[test]
fn discovery_registers_every_pair() {
    let bundles = discover(&vec![full_dir("enzh"), full_dir("deen")]).ok().unwrap();
    let reg = registry_of(&bundles);
    assert!(reg.is_supported("en", "zh"));
    assert!(reg.is_supported("de", "en"));
    assert!(!reg.is_supported("zh", "en"));
    assert_eq!(reg.models().len(), 2);
}

#[test]
fn discovery_stops_at_first_bad_directory() {
    let mut broken = full_dir("deen");
    broken.files.clear();
    match discover(&vec![full_dir("enzh"), broken, full_dir("xxyy")]) {
        Err(AppError::MissingModelFiles { pair }) => assert_eq!(pair, "deen"),
        _ => panic!("expected missing files"),
    }
    match discover(&vec![full_dir("english")]) {
        Err(AppError::InvalidPairKey { pair }) => assert_eq!(pair, "english"),
        _ => panic!("expected a bad key"),
    }
}
