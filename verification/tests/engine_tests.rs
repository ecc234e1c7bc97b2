use llama_engine::config::GenerateParams;
use llama_engine::config::ModelConfig;
use llama_engine::error::LlamaError;
use llama_engine::generation::begin_chat;
use llama_engine::generation::begin_generation;
use llama_engine::generation::seed_logits_flags;
use llama_engine::generation::validate_prompt_size;
use llama_engine::generation::FinishReason;
use llama_engine::generation::GenerationSession;
use llama_engine::generation::RecorderSink;
use llama_engine::generation::SessionPhase;
use llama_engine::config::ChatMessage;
use llama_engine::embedding::plan_embedding;
use llama_engine::slot::plan_load;
use llama_engine::slot::ModelSlot;

fn loaded_slot() -> ModelSlot {
    let mut slot = ModelSlot::new();
    slot.install_model("model.gguf".to_string(), ModelConfig::default());
    slot
}

fn session_with(max_tokens: u32, stops: Vec<&str>) -> GenerationSession {
    let params = GenerateParams {
        max_tokens,
        stop_sequences: stops.into_iter().map(|s| s.to_string()).collect(),
        ..GenerateParams::default()
    };
    let slot = loaded_slot();
    begin_generation(&slot, "Say hi", None, params).unwrap()
}

#[test]
fn test_default_params() {
    let params = GenerateParams::default();
    assert_eq!(params.temperature_bits, 0.7f32.to_bits());
    assert_eq!(params.max_tokens, 2048);
    assert_eq!(params.top_p_bits, 0.9f32.to_bits());
    assert_eq!(params.top_k, 40);
}

#[test]
fn test_default_config() {
    let config = ModelConfig::default();
    assert_eq!(config.gpu_layers, 99);
    assert_eq!(config.context_size, 8192);
    assert_eq!(config.batch_size, 512);
    assert_eq!(config.threads, 8);
    assert!(config.flash_attention);
}

#[test]
fn test_generate_before_load_returns_model_not_loaded() {
    let slot = ModelSlot::new();
    let r = begin_generation(&slot, "hi", None, GenerateParams::default());
    assert!(matches!(r, Err(LlamaError::ModelNotLoaded)));
    let messages = vec![ChatMessage { role: "user".to_string(), content: "hi".to_string() }];
    let r = begin_chat(&slot, &messages, GenerateParams::default());
    assert!(matches!(r, Err(LlamaError::ModelNotLoaded)));
}

#[test]
fn test_load_missing_file_returns_model_load_error() {
    let r = plan_load("missing.file", false, None);
    match r {
        Err(e) => match &e {
            LlamaError::ModelLoadError(detail) => {
                assert_eq!(detail, "Model file not found: missing.file");
                assert_eq!(e.message(), "Failed to load model: Model file not found: missing.file");
            }
            _ => panic!("expected ModelLoadError"),
        },
        Ok(_) => panic!("expected an error for a missing file"),
    }
}

#[test]
fn test_plan_load_defaults_config() {
    let r = plan_load("model.gguf", true, None).unwrap();
    assert_eq!(r.context_size, 8192);
    assert_eq!(r.gpu_layers, 99);
    let custom = ModelConfig { gpu_layers: 12, ..ModelConfig::default() };
    let r = plan_load("model.gguf", true, Some(custom)).unwrap();
    assert_eq!(r.gpu_layers, 12);
    let bad = ModelConfig { context_size: 0, ..ModelConfig::default() };
    assert!(matches!(plan_load("model.gguf", true, Some(bad)), Err(LlamaError::ModelLoadError(_))));
}

#[test]
fn test_unload_is_idempotent() {
    let mut slot = loaded_slot();
    assert!(slot.is_model_loaded());
    assert_eq!(slot.get_current_model_path(), Some("model.gguf".to_string()));
    slot.unload_model();
    assert!(!slot.is_model_loaded());
    assert_eq!(slot.get_current_model_path(), None);
    slot.unload_model();
    assert!(!slot.is_model_loaded());
    assert_eq!(slot.get_current_model_path(), None);
}

#[test]
fn test_reload_replaces_model() {
    let mut slot = loaded_slot();
    slot.install_model("other.gguf".to_string(), ModelConfig { gpu_layers: 0, ..ModelConfig::default() });
    assert!(slot.is_model_loaded());
    assert_eq!(slot.get_current_model_path(), Some("other.gguf".to_string()));
}

#[test]
fn test_zero_max_tokens_produces_empty_output() {
    let mut s = session_with(0, vec![]);
    assert_eq!(s.phase(), SessionPhase::AwaitingPrompt);
    s.prompt_ready(7);
    assert_eq!(s.phase(), SessionPhase::Finished(FinishReason::BudgetExhausted));
    assert!(!s.wants_token());
    assert_eq!(s.into_output(), "");
}

#[test]
fn test_eos_before_budget_ends_early_without_error() {
    let mut s = session_with(100, vec![]);
    s.prompt_ready(3);
    assert!(!s.push_token("Hello", false));
    assert!(!s.push_token(" world", false));
    let halted = s.push_token("", true);
    assert!(halted);
    assert_eq!(s.phase(), SessionPhase::Finished(FinishReason::EosReached));
    assert!(!s.wants_token());
    assert_eq!(s.into_output(), "Hello world");
}

#[test]
fn test_stop_sequence_trims_exact_suffix_and_halts() {
    let mut s = session_with(100, vec!["STOP"]);
    s.prompt_ready(3);
    assert!(!s.push_token("The answer", false));
    let halted = s.push_token(" is STOP", false);
    assert!(halted);
    assert_eq!(s.phase(), SessionPhase::Finished(FinishReason::StopMatched));
    assert_eq!(s.into_output(), "The answer is ");
}

#[test]
fn test_first_matching_stop_sequence_wins() {
    let mut s = session_with(100, vec!["ab", "b"]);
    s.prompt_ready(0);
    let halted = s.push_token("xab", false);
    assert!(halted);
    // "xab" ends with both "ab" and "b"; the first configured one is trimmed.
    assert_eq!(s.into_output(), "x");
}

#[test]
fn test_empty_stop_sequence_halts_without_trimming() {
    // Every string ends with the empty string, so the first fragment halts
    // the session and nothing is trimmed.
    let mut s = session_with(100, vec![""]);
    s.prompt_ready(0);
    let halted = s.push_token("abc", false);
    assert!(halted);
    assert_eq!(s.phase(), SessionPhase::Finished(FinishReason::StopMatched));
    assert_eq!(s.into_output(), "abc");
}

#[test]
fn test_budget_exhaustion_is_normal_termination() {
    let mut s = session_with(2, vec![]);
    s.prompt_ready(3);
    assert_eq!(s.cursor(), 3);
    assert!(!s.push_token("a", false));
    assert_eq!(s.cursor(), 4);
    assert!(s.wants_token());
    assert!(!s.push_token("b", false));
    assert_eq!(s.cursor(), 5);
    assert_eq!(s.phase(), SessionPhase::Finished(FinishReason::BudgetExhausted));
    assert!(!s.wants_token());
    assert_eq!(s.into_output(), "ab");
}

#[test]
fn test_two_sessions_do_not_share_state() {
    let slot = loaded_slot();
    let mut a = begin_generation(&slot, "first", None, GenerateParams::default()).unwrap();
    let mut b = begin_generation(&slot, "second", None, GenerateParams::default()).unwrap();
    a.prompt_ready(5);
    b.prompt_ready(9);
    assert!(!a.push_token("alpha", false));
    assert!(!b.push_token("beta", false));
    assert!(!a.push_token(" one", false));
    assert!(!b.push_token(" two", false));
    assert_eq!(a.cursor(), 7);
    assert_eq!(b.cursor(), 11);
    assert_eq!(a.into_output(), "alpha one");
    assert_eq!(b.into_output(), "beta two");
}

#[test]
fn test_streaming_emits_fragments_then_one_done() {
    let mut s = session_with(100, vec![]);
    s.prompt_ready(1);
    let mut sink = RecorderSink::new();
    assert!(!s.push_token_streamed("Hel", false, &mut sink));
    assert!(!s.push_token_streamed("lo", false, &mut sink));
    assert!(s.push_token_streamed("", true, &mut sink));
    s.emit_done(&mut sink);
    let events = sink.entries();
    assert_eq!(events.len(), 3);
    assert_eq!(events[0], ("Hel".to_string(), false));
    assert_eq!(events[1], ("lo".to_string(), false));
    assert_eq!(events[2], ("".to_string(), true));
    assert_eq!(s.into_output(), "Hello");
}

#[test]
fn test_streamed_fragment_is_not_unsent_after_trim() {
    let mut s = session_with(100, vec!["STOP"]);
    s.prompt_ready(1);
    let mut sink = RecorderSink::new();
    assert!(!s.push_token_streamed("done ", false, &mut sink));
    assert!(s.push_token_streamed("STOP", false, &mut sink));
    s.emit_done(&mut sink);
    let events = sink.entries();
    // The trimmed fragment was still streamed; the output no longer holds it.
    assert_eq!(events.len(), 3);
    assert_eq!(events[1], ("STOP".to_string(), false));
    assert_eq!(events[2], ("".to_string(), true));
    assert_eq!(s.into_output(), "done ");
}

#[test]
fn test_chat_session_uses_chat_prompt() {
    let slot = loaded_slot();
    let messages = vec![ChatMessage { role: "user".to_string(), content: "Hi".to_string() }];
    let s = begin_chat(&slot, &messages, GenerateParams::default()).unwrap();
    assert_eq!(
        s.prompt_text(),
        "<|begin_of_text|>\
         <|start_header_id|>user<|end_header_id|>\n\nHi<|eot_id|>\
         <|start_header_id|>assistant<|end_header_id|>\n\n"
    );
}

#[test]
fn test_embedding_needs_a_loaded_model() {
    let slot = ModelSlot::new();
    assert!(matches!(plan_embedding(&slot), Err(LlamaError::ModelNotLoaded)));
    let slot = loaded_slot();
    assert_eq!(plan_embedding(&slot).unwrap(), 512);
}

#[test]
fn test_validate_prompt_size_accepts_ordinary_text() {
    assert!(validate_prompt_size("a perfectly ordinary prompt").is_ok());
}

#[test]
fn test_seed_logits_flags_marks_only_last() {
    let flags = seed_logits_flags(4);
    assert_eq!(flags, vec![false, false, false, true]);
    assert_eq!(seed_logits_flags(0), Vec::<bool>::new());
}

#[test]
fn test_error_messages() {
    assert_eq!(LlamaError::BackendNotInitialized.message(), "Backend not initialized");
    assert_eq!(LlamaError::ModelNotLoaded.message(), "Model not loaded");
    assert_eq!(
        LlamaError::GenerationError("decode failed".to_string()).message(),
        "Generation error: decode failed"
    );
    assert_eq!(
        LlamaError::TokenizationError("bad input".to_string()).message(),
        "Tokenization error: bad input"
    );
    assert_eq!(
        LlamaError::ContextError("out of memory".to_string()).message(),
        "Context error: out of memory"
    );
    assert_eq!(LlamaError::IoError("broken pipe".to_string()).message(), "IO error: broken pipe");
}
