//! Records of the learning subsystem: the user's preferences and the
//! training data gathered for fine-tuning. Persistence and the embedding
//! service are the application's work.

use vstd::prelude::*;

verus! {

use vstd::string::StringExecFns;

/// What the assistant knows of the user's tastes.
#[derive(Debug, Clone)]
pub struct UserPreferences {
    /// Language the user is answered in.
    pub language: String,
    /// Language comments and identifiers are written in.
    pub code_language: String,
    /// Frameworks the user works with.
    pub frameworks: Vec<String>,
    /// How code should be written.
    pub coding_style: String,
    /// The assistant's persona.
    pub persona: String,
}

impl Default for UserPreferences {
    /// The starting preferences before any have been saved.
    fn default() -> (p: UserPreferences)
        ensures
            p.language@ == "Polish"@,
            p.code_language@ == "English"@,
            p.frameworks@.len() == 4,
            p.frameworks@[0]@ == "React 19"@,
            p.frameworks@[1]@ == "TypeScript"@,
            p.frameworks@[2]@ == "Zustand"@,
            p.frameworks@[3]@ == "Tauri"@,
            p.coding_style@ == "functional, strict TypeScript, no-any"@,
            p.persona@ == "Jaskier"@,
    {
        let mut frameworks: Vec<String> = Vec::new();
        frameworks.push(String::from_str("React 19"));
        frameworks.push(String::from_str("TypeScript"));
        frameworks.push(String::from_str("Zustand"));
        frameworks.push(String::from_str("Tauri"));
        UserPreferences {
            language: String::from_str("Polish"),
            code_language: String::from_str("English"),
            frameworks,
            coding_style: String::from_str("functional, strict TypeScript, no-any"),
            persona: String::from_str("Jaskier"),
        }
    }
}

/// One instruction-tuning example collected from a conversation.
#[derive(Debug, Clone)]
pub struct TrainingExample {
    /// What was asked of the assistant.
    pub instruction: String,
    /// Extra input the instruction worked on.
    pub input: String,
    /// The answer held up as an example.
    pub output: String,
    /// When the example was collected.
    pub collected_at: String,
}

/// Where an exported fine-tuning dataset landed.
#[derive(Debug, Clone)]
pub struct ExportResult {
    /// Path of the training split.
    pub train_path: String,
    /// Path of the evaluation split.
    pub eval_path: String,
    /// Examples in the training split.
    pub train_count: u32,
    /// Examples in the evaluation split.
    pub eval_count: u32,
    /// Path of the generated notebook.
    pub notebook_path: String,
}

/// What a training job reported.
#[derive(Debug, Clone)]
pub struct TrainingResult {
    /// Whether the job completed.
    pub success: bool,
    /// Path of the trained model, on success.
    pub model_path: Option<String>,
    /// What went wrong, on failure.
    pub error: Option<String>,
}

} // verus!
