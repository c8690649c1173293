use fhe_sum::mode::parse_flag;
use fhe_sum::mode::read_save_flag;
use fhe_sum::mode::OutputMode;
use fhe_sum::mode::PipelineMode;

#[test]
fn save_unset_is_true() {
    assert!(read_save_flag(None));
    assert_eq!(PipelineMode::select(None), PipelineMode::Generate);
}

#[test]
fn save_false_selects_load_and_compute() {
    assert!(!read_save_flag(Some("false")));
    assert_eq!(PipelineMode::select(Some("false")), PipelineMode::LoadAndCompute);
}

#[test]
fn save_banana_falls_to_default() {
    assert!(read_save_flag(Some("banana")));
    assert_eq!(PipelineMode::select(Some("banana")), PipelineMode::Generate);
}

#[test]
fn truthy_words_switch_on() {
    for word in ["1", "true", "t", "yes", "y"] {
        assert_eq!(parse_flag(word), Some(true), "{}", word);
        assert!(read_save_flag(Some(word)));
    }
}

#[test]
fn flag_words_ignore_case() {
    for word in ["TRUE", "True", "T", "YES", "Yes", "Y", "tRuE"] {
        assert_eq!(parse_flag(word), Some(true), "{}", word);
    }
    for word in ["FALSE", "False", "fAlSe"] {
        assert_eq!(parse_flag(word), Some(false), "{}", word);
        assert_eq!(PipelineMode::select(Some(word)), PipelineMode::LoadAndCompute);
    }
}

#[test]
fn unrecognized_words_say_nothing() {
    for word in ["", "banana", "2", "0", "no", "truee", " true", "true ", "ye", "fals", "on", "tru\u{212a}"] {
        assert_eq!(parse_flag(word), None, "{:?}", word);
        assert!(read_save_flag(Some(word)));
    }
}

#[test]
fn only_ascii_capitals_are_lowered() {
    // U+212A KELVIN SIGN lowers to `k` in Unicode, and is left alone here
    assert_eq!(parse_flag("\u{212a}"), None);
    assert_eq!(parse_flag("\u{ff39}"), None);
    assert_eq!(parse_flag("Y"), Some(true));
}

#[test]
fn pipeline_mode_from_flag() {
    assert_eq!(PipelineMode::from_save_flag(true), PipelineMode::Generate);
    assert_eq!(PipelineMode::from_save_flag(false), PipelineMode::LoadAndCompute);
}

#[test]
fn output_mode_int64_is_diagnostic() {
    assert_eq!(OutputMode::from_flag(Some("int64")), OutputMode::Diagnostic);
}

#[test]
fn output_mode_defaults_to_encoded_blob() {
    assert_eq!(OutputMode::from_flag(None), OutputMode::EncodedBlob);
    for word in ["base64", "", "INT64", "int64 ", "int", "int645", "hex"] {
        assert_eq!(OutputMode::from_flag(Some(word)), OutputMode::EncodedBlob, "{:?}", word);
    }
}
