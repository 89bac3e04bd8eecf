use enteract::data::hybrid_store::HybridDataStore;
use enteract::data::migration::{check_migration_status, migration_failed, migration_succeeded};
use enteract::data::sqlite_store::{migration_needed, MigrationResult};
use enteract::audio_loopback::settings::model_to_reload;
use enteract::gpu_detection::{
    acceleration_available, check_ollama_gpu_support, determine_best_backend, first_nvidia,
    generate_performance_notes, AccelerationBackend, GpuInfo, GpuVendor,
};
use enteract::audio_loopback::encoding::DecodeFailure;
use enteract::mcp::server::{
    default_step_id, find_tool, get_plan_validation_feedback, step_dependency,
    tool_requires_parameters, validate_execution_plan, ToolExecutionPlan, ToolInfo, ToolStep,
};
use enteract::mcp::tools::{
    ClickAtTool, ClickOnTextTool, ClickTool, FindTextTool, GetCursorPositionTool, GetScreenInfoTool,
    KeyPressTool, ScreenshotTool, ScrollTool, TypeTool,
};
use enteract::mcp::types::{
    ClickParams, CursorPosition, DangerLevel, ExecutionContext, MCPSessionConfig, MouseButton,
    ScreenshotParams, ScrollDirection, ScrollParams, ToolExecutionResult, TypeParams,
};
use enteract::ollama::{build_prompt_with_context, ChatContextMessage, PullRequest};
use enteract::rag::embeddings::{is_token, EmbeddingConfig};
use enteract::rag::enhanced::commands::{content_hash, count_status, find_duplicate, type_valid};
use enteract::rag::services::advanced_search::{
    generate_cache_key, get_query_suggestions, levenshtein_distance, QueryCacheIndex, SearchFilters,
};
use enteract::rag::services::context_engine::{detect_intent, is_keyword, is_stop_word, is_topic};
use enteract::rag::services::file_watcher::determine_file_type;
use enteract::rag::storage::RagStorage;
use enteract::rag::types::{ProcessingStatus, RagError};
use enteract::speech::{
    decode_audio_base64, is_valid_model_file, load_audio_file, model_file_name, model_url,
    needs_download, transcription_language,
};
use enteract::text::{
    chars_of, contains, decimal, digit_str, join, list_contains, matches_at, same_text, starts_with,
};
use enteract::window_manager::drag_resize::{detect_resize_zone, ResizeDirection};

fn result(tool: &str, x: Option<i64>, y: Option<i64>, w: Option<u64>, h: Option<u64>) -> ToolExecutionResult {
    ToolExecutionResult {
        success: true,
        error: None,
        execution_time_ms: 1,
        tool_name: tool.to_string(),
        x,
        y,
        width: w,
        height: h,
    }
}

fn tool(name: &str, required: &[&str]) -> ToolInfo {
    ToolInfo {
        name: name.to_string(),
        description: String::new(),
        danger_level: DangerLevel::Low,
        requires_approval: false,
        parameter_names: required.iter().map(|s| s.to_string()).collect(),
        required_parameters: required.iter().map(|s| s.to_string()).collect(),
    }
}

fn step(tool_name: &str, has_parameters: bool) -> ToolStep {
    ToolStep {
        step_id: "s".to_string(),
        tool_name: tool_name.to_string(),
        description: String::new(),
        has_parameters,
        depends_on: None,
        danger_level: DangerLevel::Medium,
        estimated_duration_ms: Some(2000),
    }
}

fn plan(steps: Vec<ToolStep>) -> ToolExecutionPlan {
    ToolExecutionPlan {
        session_id: String::new(),
        plan_id: String::new(),
        user_request: String::new(),
        steps,
        overall_risk: DangerLevel::Medium,
        requires_approval: true,
        created_at: String::new(),
    }
}

fn gpu(vendor: GpuVendor, metal: bool, cuda: bool, opencl: bool) -> GpuInfo {
    GpuInfo {
        name: "gpu".to_string(),
        vendor,
        memory_gb: None,
        compute_capability: None,
        supports_metal: metal,
        supports_cuda: cuda,
        supports_opencl: opencl,
    }
}

#[test]
fn numbers_are_written_in_decimal() {
    assert_eq!(decimal(0), "0");
    assert_eq!(decimal(7), "7");
    assert_eq!(decimal(10), "10");
    assert_eq!(decimal(4098), "4098");
    assert_eq!(decimal(u64::MAX), u64::MAX.to_string());
    for d in 0..10 {
        assert_eq!(digit_str(d), d.to_string());
    }
    assert_eq!(chars_of("a\u{e9}z"), vec!['a', '\u{e9}', 'z']);
    assert!(same_text("abc", "abc"));
    assert!(!same_text("abc", "abd"));
}

#[test]
fn migration_totals_add_up() {
    let r = MigrationResult {
        success: true,
        chat_sessions_migrated: 1,
        chat_messages_migrated: 20,
        conversation_sessions_migrated: 3,
        conversation_messages_migrated: 40,
        conversation_insights_migrated: 5,
    };
    assert_eq!(r.total_records(), 69);
    assert_eq!(r.checked_total_records(), Some(69));
    assert_eq!(MigrationResult::default().total_records(), 0);
    assert!(!MigrationResult::default().success);
    let big = MigrationResult { chat_sessions_migrated: usize::MAX, chat_messages_migrated: 1, ..r };
    assert_eq!(big.checked_total_records(), None);
    assert!(migration_needed(0, 0));
    assert!(!migration_needed(1, 0));
    assert!(!migration_needed(0, 2));
}

#[test]
fn migration_status_follows_what_is_on_disk() {
    let s = check_migration_status(true, true, false, Some(1));
    assert!(s.is_sqlite_enabled && s.database_exists && s.has_json_data && s.migration_completed);
    assert!(!s.needs_migration);
    let s = check_migration_status(true, false, true, Some(0));
    assert!(s.has_json_data && !s.migration_completed && s.needs_migration);
    let s = check_migration_status(true, true, true, None);
    assert!(!s.migration_completed && s.needs_migration);
    let s = check_migration_status(false, false, false, Some(5));
    assert!(!s.database_exists && !s.has_json_data && !s.migration_completed && !s.needs_migration);
    assert!(HybridDataStore::should_use_sqlite(true, Some(1)));
    assert!(!HybridDataStore::should_use_sqlite(true, Some(0)));
    assert!(!HybridDataStore::should_use_sqlite(true, None));
    assert!(!HybridDataStore::should_use_sqlite(false, Some(3)));
}

#[test]
fn migration_answers_have_their_messages() {
    let r = MigrationResult {
        success: true,
        chat_sessions_migrated: 2,
        chat_messages_migrated: 30,
        conversation_sessions_migrated: 4,
        conversation_messages_migrated: 50,
        conversation_insights_migrated: 6,
    };
    let answer = migration_succeeded(r);
    assert!(answer.success);
    assert_eq!(
        answer.message,
        "Migration completed! Migrated 92 total records: 2 chat sessions with 30 messages, 4 conversation sessions with 50 messages and 6 insights"
    );
    assert_eq!(answer.result, Some(r));
    assert_eq!(answer.error, None);
    let answer = migration_failed(false, "disk full");
    assert!(!answer.success);
    assert_eq!(answer.message, "Migration failed");
    assert_eq!(answer.error.as_deref(), Some("Migration failed: disk full"));
    let answer = migration_failed(true, "locked");
    assert_eq!(answer.message, "Failed to initialize database");
    assert_eq!(answer.error.as_deref(), Some("Failed to initialize SQLite database: locked"));
    assert_eq!(answer.result, None);
}

#[test]
fn best_backend_follows_the_order_of_preference() {
    assert_eq!(determine_best_backend(&vec![]), AccelerationBackend::Cpu);
    assert_eq!(
        determine_best_backend(&vec![gpu(GpuVendor::Intel, false, false, true)]),
        AccelerationBackend::OpenCl
    );
    assert_eq!(
        determine_best_backend(&vec![
            gpu(GpuVendor::Intel, false, false, true),
            gpu(GpuVendor::Amd, false, false, false)
        ]),
        AccelerationBackend::Rocm
    );
    assert_eq!(
        determine_best_backend(&vec![
            gpu(GpuVendor::Amd, false, false, true),
            gpu(GpuVendor::Nvidia, false, true, false)
        ]),
        AccelerationBackend::Cuda
    );
    assert_eq!(
        determine_best_backend(&vec![
            gpu(GpuVendor::Nvidia, false, true, false),
            gpu(GpuVendor::Apple, true, false, false)
        ]),
        AccelerationBackend::Metal
    );
    assert_eq!(
        determine_best_backend(&vec![gpu(GpuVendor::Nvidia, true, false, false)]),
        AccelerationBackend::Cpu
    );
    assert_eq!(
        determine_best_backend(&vec![gpu(GpuVendor::Unknown("x".to_string()), true, true, false)]),
        AccelerationBackend::Cpu
    );
    assert!(acceleration_available(AccelerationBackend::Metal));
    assert!(!acceleration_available(AccelerationBackend::Cpu));
}

#[test]
fn model_server_listing_names_the_backend() {
    let s = check_ollama_gpu_support(None);
    assert_eq!(s.detected_backend, "Unknown (Ollama not accessible)");
    assert!(!s.supports_acceleration);
    let s = check_ollama_gpu_support(Some("llama3 100% GPU (Metal)"));
    assert_eq!(s.detected_backend, "Metal");
    assert!(s.supports_acceleration);
    let s = check_ollama_gpu_support(Some("llama3 CUDA0"));
    assert_eq!(s.detected_backend, "CUDA");
    let s = check_ollama_gpu_support(Some("llama3 100% GPU"));
    assert_eq!(s.detected_backend, "GPU");
    let s = check_ollama_gpu_support(Some("llama3 100% cpu"));
    assert_eq!(s.detected_backend, "CPU");
    assert!(!s.supports_acceleration);
    assert_eq!(s.gpu_layers, None);
    assert_eq!(s.memory_usage, None);
}

#[test]
fn tools_have_their_names_and_levels() {
    assert_eq!(ClickTool.name(), "click");
    assert_eq!(
        ClickTool.description(),
        "Perform a mouse click at specified coordinates or current cursor position"
    );
    assert_eq!(TypeTool.name(), "type");
    assert_eq!(ScrollTool.name(), "scroll");
    assert_eq!(KeyPressTool.name(), "key_press");
    assert_eq!(GetCursorPositionTool.name(), "get_cursor_position");
    assert_eq!(GetScreenInfoTool.name(), "get_screen_info");
    assert_eq!(ScreenshotTool.name(), "take_screenshot");
    assert_eq!(FindTextTool.name(), "find_text");
    assert_eq!(ClickAtTool.name(), "click_at");
    assert_eq!(ClickOnTextTool.name(), "click_on_text");
    assert_eq!(ClickTool.danger_level(), DangerLevel::Medium);
    assert_eq!(ScrollTool.danger_level(), DangerLevel::Low);
    assert!(ClickTool.requires_approval());
    assert!(TypeTool.requires_approval());
    assert!(KeyPressTool.requires_approval());
    assert!(ClickAtTool.requires_approval());
    assert!(ClickOnTextTool.requires_approval());
    assert!(!ScrollTool.requires_approval());
    assert!(!GetCursorPositionTool.requires_approval());
    assert!(!GetScreenInfoTool.requires_approval());
    assert!(!ScreenshotTool.requires_approval());
    assert!(!FindTextTool.requires_approval());
    assert!(!DangerLevel::Low.requires_approval());
    assert!(DangerLevel::High.requires_approval());
    assert!(DangerLevel::Critical.requires_approval());
    assert_eq!(DangerLevel::Critical.severity(), 3);
    assert_eq!(DangerLevel::Low.severity(), 0);
}

#[test]
fn session_defaults() {
    let c = MCPSessionConfig::default();
    assert!(c.require_approval);
    assert_eq!(c.session_timeout_seconds, 300);
    assert!(c.enable_logging);
    assert_eq!(c.server_name, "enteract-mcp-server");
    assert_eq!(c.server_version, "1.0.0");
    let e = EmbeddingConfig::default();
    assert_eq!(e.model_name, "simple-tfidf");
    assert_eq!(e.max_length, 512);
    assert!(e.normalize_embeddings);
    assert!(!e.show_download_progress);
    assert!(is_token(3));
    assert!(!is_token(2));
}

#[test]
fn execution_context_follows_results() {
    let mut ctx = ExecutionContext::new();
    assert_eq!((ctx.screen_width, ctx.screen_height, ctx.cursor_x, ctx.cursor_y), (1920, 1080, 0, 0));
    assert!(ctx.previous_actions.is_empty());
    assert_eq!(ctx.session_id, "");
    ctx.update_from_result("step_1", &result("get_cursor_position", Some(10), Some(-20), None, None));
    assert_eq!((ctx.cursor_x, ctx.cursor_y), (10, -20));
    ctx.update_from_result("step_2", &result("get_cursor_position", Some(5), None, None, None));
    assert_eq!((ctx.cursor_x, ctx.cursor_y), (10, -20));
    ctx.update_from_result("step_3", &result("get_screen_info", Some(1), Some(2), Some(2560), Some(1440)));
    assert_eq!((ctx.screen_width, ctx.screen_height), (2560, 1440));
    assert_eq!((ctx.cursor_x, ctx.cursor_y), (10, -20));
    ctx.update_from_result("step_4", &result("click", Some(1), Some(2), Some(3), Some(4)));
    assert_eq!((ctx.screen_width, ctx.screen_height, ctx.cursor_x, ctx.cursor_y), (2560, 1440, 10, -20));
    ctx.update_from_result("step_5", &result("get_cursor_position", Some(0x1_0000_0005), Some(-1), None, None));
    assert_eq!((ctx.cursor_x, ctx.cursor_y), (5, -1));
    assert_eq!(ctx.previous_actions.len(), 5);
    ctx.update_from_result("step_6", &result("type", None, None, None, None));
    assert_eq!(
        ctx.previous_actions,
        vec![
            "step_2: get_cursor_position",
            "step_3: get_screen_info",
            "step_4: click",
            "step_5: get_cursor_position",
            "step_6: type"
        ]
    );
}

#[test]
fn plans_are_checked_against_the_tools() {
    let tools = vec![tool("click", &["x", "y"]), tool("get_cursor_position", &[]), tool("click", &[])];
    assert_eq!(find_tool(&tools, "click"), Some(0));
    assert_eq!(find_tool(&tools, "type"), None);
    assert!(tool_requires_parameters("click", &tools));
    assert!(!tool_requires_parameters("get_cursor_position", &tools));
    assert!(!tool_requires_parameters("type", &tools));
    assert!(validate_execution_plan(&plan(vec![]), &tools));
    assert!(validate_execution_plan(
        &plan(vec![step("click", true), step("get_cursor_position", false)]),
        &tools
    ));
    assert!(!validate_execution_plan(&plan(vec![step("click", false)]), &tools));
    assert!(!validate_execution_plan(&plan(vec![step("click", true), step("type", true)]), &tools));
    assert_eq!(default_step_id(0), "step_1");
    assert_eq!(default_step_id(9), "step_10");
    assert_eq!(step_dependency(0), None);
    assert_eq!(step_dependency(1), Some("step_1".to_string()));
    assert_eq!(step_dependency(10), Some("step_10".to_string()));
}

#[test]
fn prompts_carry_the_history() {
    assert_eq!(build_prompt_with_context("hi".to_string(), None), "hi");
    assert_eq!(build_prompt_with_context("hi".to_string(), Some(vec![])), "hi");
    let context = vec![
        ChatContextMessage { role: "user".to_string(), content: "a".to_string() },
        ChatContextMessage { role: "assistant".to_string(), content: "b".to_string() },
        ChatContextMessage { role: "system".to_string(), content: "c".to_string() },
        ChatContextMessage { role: "tool".to_string(), content: "d".to_string() },
    ];
    assert_eq!(context[0].line(), "user: a");
    assert_eq!(
        build_prompt_with_context("now".to_string(), Some(context)),
        "## Conversation History:\n\n**User:** a\n\n**Assistant:** b\n\n**System:** c\n\n**tool:** d\n\n## Current Request:\n\nnow"
    );
    let p = PullRequest::streaming("llama3".to_string());
    assert_eq!((p.name.as_str(), p.insecure, p.stream), ("llama3", Some(false), Some(true)));
}

#[test]
fn edit_distance_is_exact() {
    assert_eq!(levenshtein_distance("", ""), 0);
    assert_eq!(levenshtein_distance("abc", ""), 3);
    assert_eq!(levenshtein_distance("", "abcd"), 4);
    assert_eq!(levenshtein_distance("kitten", "sitting"), 3);
    assert_eq!(levenshtein_distance("flaw", "lawn"), 2);
    assert_eq!(levenshtein_distance("same", "same"), 0);
    assert_eq!(levenshtein_distance("a", "b"), 1);
    assert_eq!(levenshtein_distance("caf\u{e9}", "cafe"), 1);
    assert_eq!(levenshtein_distance("intention", "execution"), 5);
}

#[test]
fn search_filters_apply() {
    let f = SearchFilters {
        file_types: vec![],
        date_range: None,
        tags: vec![],
        min_size: Some(10),
        max_size: Some(20),
        has_embeddings: Some(true),
    };
    assert!(f.size_passes(10) && f.size_passes(20) && f.size_passes(15));
    assert!(!f.size_passes(9) && !f.size_passes(21));
    assert!(f.embedding_passes(true) && !f.embedding_passes(false));
    let open = SearchFilters { min_size: None, max_size: None, has_embeddings: None, ..f };
    assert!(open.size_passes(i64::MIN) && open.size_passes(i64::MAX));
    assert!(open.embedding_passes(true) && open.embedding_passes(false));
}

#[test]
fn stop_words_keywords_and_intent() {
    for w in ["the", "and", "an", "a", "shall", "those", "been"] {
        assert!(is_stop_word(w), "{}", w);
    }
    for w in ["The", "audio", "", "thee", "nor"] {
        assert!(!is_stop_word(w), "{}", w);
    }
    assert!(is_keyword("audio"));
    assert!(!is_keyword("the"));
    assert!(!is_keyword("mic"));
    assert!(!is_keyword("would"));
    assert!(is_topic("capture"));
    assert!(!is_topic("audio"));
    assert!(!is_topic("should"));
    assert_eq!(detect_intent("how do I implement this"), "question");
    assert_eq!(detect_intent("please implement an error handler"), "implementation");
    assert_eq!(detect_intent("there is a problem"), "troubleshooting");
    assert_eq!(detect_intent("hello"), "general");
}

#[test]
fn file_types_follow_the_extension() {
    assert_eq!(determine_file_type(Some("txt")), "text/plain");
    assert_eq!(determine_file_type(Some("md")), "text/markdown");
    assert_eq!(determine_file_type(Some("pdf")), "application/pdf");
    assert_eq!(determine_file_type(Some("doc")), "application/msword");
    assert_eq!(
        determine_file_type(Some("docx")),
        "application/vnd.openxmlformats-officedocument.wordprocessingml.document"
    );
    assert_eq!(determine_file_type(Some("rtf")), "application/rtf");
    assert_eq!(determine_file_type(Some("exe")), "text/plain");
    assert_eq!(determine_file_type(None), "text/plain");
}

#[test]
fn rag_errors_and_states() {
    let e = RagError::new("E1".to_string(), "broken".to_string());
    assert_eq!((e.code.as_str(), e.message.as_str(), e.details.clone()), ("E1", "broken", None));
    assert_eq!(e.to_text(), "E1: broken");
    let e = e.with_details("more".to_string()).with_details("most".to_string());
    assert_eq!(e.details.as_deref(), Some("most"));
    assert_eq!(e.code, "E1");
    assert_eq!(ProcessingStatus::Pending.to_string(), "pending");
    assert_eq!(ProcessingStatus::Processing.to_string(), "processing");
    assert_eq!(ProcessingStatus::Completed.to_string(), "completed");
    assert_eq!(ProcessingStatus::Failed.to_string(), "failed");
    let s = RagStorage::new("/tmp/rag.db".to_string());
    assert_eq!(s.db_path(), "/tmp/rag.db");
}

#[test]
fn model_files_and_languages() {
    assert_eq!(model_file_name("small"), "ggml-small.bin");
    assert_eq!(
        model_url("tiny"),
        "https://huggingface.co/ggerganov/whisper.cpp/resolve/main/ggml-tiny.bin"
    );
    assert!(is_valid_model_file(Some(1_000_001)));
    assert!(!is_valid_model_file(Some(1_000_000)));
    assert!(!is_valid_model_file(None));
    assert!(needs_download(None));
    assert!(!needs_download(Some(50_000_000)));
    assert_eq!(transcription_language(Some("en")), Some("en"));
    assert_eq!(transcription_language(Some("auto")), None);
    assert_eq!(transcription_language(Some("")), None);
    assert_eq!(transcription_language(None), None);
}

#[test]
fn resize_zones() {
    assert_eq!(detect_resize_zone(true, false, true, false), Some(ResizeDirection::NorthWest));
    assert_eq!(detect_resize_zone(false, true, true, false), Some(ResizeDirection::NorthEast));
    assert_eq!(detect_resize_zone(true, false, false, true), Some(ResizeDirection::SouthWest));
    assert_eq!(detect_resize_zone(false, true, false, true), Some(ResizeDirection::SouthEast));
    assert_eq!(detect_resize_zone(true, false, false, false), Some(ResizeDirection::West));
    assert_eq!(detect_resize_zone(false, true, false, false), Some(ResizeDirection::East));
    assert_eq!(detect_resize_zone(false, false, true, false), Some(ResizeDirection::North));
    assert_eq!(detect_resize_zone(false, false, false, true), Some(ResizeDirection::South));
    assert_eq!(detect_resize_zone(false, false, false, false), None);
    assert_eq!(detect_resize_zone(true, true, false, false), None);
    assert_eq!(detect_resize_zone(true, true, true, true), None);
    assert_eq!(detect_resize_zone(true, false, true, true), None);
    assert!(ResizeDirection::West.moves_left_edge());
    assert!(ResizeDirection::NorthWest.moves_left_edge() && ResizeDirection::NorthWest.moves_top_edge());
    assert!(!ResizeDirection::SouthEast.moves_left_edge() && !ResizeDirection::SouthEast.moves_top_edge());
    assert!(ResizeDirection::NorthEast.moves_top_edge());
}

#[test]
fn tool_parameters_have_their_defaults() {
    let cursor = CursorPosition { x: 7, y: 8 };
    let click = ClickParams { x: Some(1), y: Some(2), button: None };
    assert_eq!(click.target(cursor), CursorPosition { x: 1, y: 2 });
    assert_eq!(click.button_or_default(), MouseButton::Left);
    let click = ClickParams { x: Some(1), y: None, button: Some(MouseButton::Right) };
    assert_eq!(click.target(cursor), cursor);
    assert_eq!(click.button_or_default(), MouseButton::Right);
    assert_eq!(TypeParams { text: String::new(), delay_ms: None }.delay_or_default(), 10);
    assert_eq!(TypeParams { text: String::new(), delay_ms: Some(0) }.delay_or_default(), 0);
    let scroll = ScrollParams { x: None, y: None, direction: ScrollDirection::Up, amount: None };
    assert_eq!(scroll.amount_or_default(), 3);
    assert_eq!(scroll.wheel_delta(), Some(360));
    let scroll = ScrollParams { x: None, y: None, direction: ScrollDirection::Down, amount: Some(2) };
    assert_eq!(scroll.wheel_delta(), Some(-240));
    let scroll = ScrollParams { x: None, y: None, direction: ScrollDirection::Down, amount: Some(i32::MIN) };
    assert_eq!(scroll.wheel_delta(), Some(120 * 2_147_483_648i64));
    let scroll = ScrollParams { x: None, y: None, direction: ScrollDirection::Left, amount: Some(2) };
    assert_eq!(scroll.wheel_delta(), None);
    let scroll = ScrollParams { x: None, y: None, direction: ScrollDirection::Right, amount: None };
    assert_eq!(scroll.wheel_delta(), None);
    let shot = ScreenshotParams::fallback();
    assert_eq!(shot.format.as_deref(), Some("png"));
    assert_eq!(shot.quality, Some(90));
    assert!(shot.region.is_none());
    assert_eq!(TypeTool.description(), "Type text at the current cursor/focus position");
    assert_eq!(ScrollTool.description(), "Scroll in a specified direction");
    assert_eq!(KeyPressTool.description(), "Press a key or key combination");
    assert_eq!(GetCursorPositionTool.description(), "Get the current mouse cursor position");
    assert_eq!(GetScreenInfoTool.description(), "Get screen information (width, height, scale factor)");
    assert_eq!(ScreenshotTool.description(), "Take a screenshot of the screen or a region");
    assert_eq!(
        FindTextTool.description(),
        "Find text on screen using OCR and return its location and confidence"
    );
    assert_eq!(ClickAtTool.description(), "Click at specific coordinates on screen");
    assert_eq!(
        ClickOnTextTool.description(),
        "Find text on screen using OCR and click on it (compound tool)"
    );
}

#[test]
fn performance_notes_follow_the_backend() {
    let mut nvidia = gpu(GpuVendor::Nvidia, false, true, false);
    let amd = gpu(GpuVendor::Amd, false, false, true);
    assert_eq!(
        generate_performance_notes(&vec![], AccelerationBackend::Metal),
        vec![
            "🚀 Excellent: Apple Silicon GPU acceleration available via Metal",
            "💡 Tip: Unified memory architecture provides efficient GPU-CPU data sharing"
        ]
    );
    assert_eq!(
        generate_performance_notes(&vec![amd.clone()], AccelerationBackend::Rocm),
        vec![
            "⚡ Good: AMD GPU detected - ROCm support available",
            "💡 Tip: ROCm support varies by GPU generation - check compatibility"
        ]
    );
    assert_eq!(
        generate_performance_notes(&vec![], AccelerationBackend::OpenCl),
        vec!["🔧 Basic: OpenCL acceleration available but may be slower than native backends"]
    );
    assert_eq!(
        generate_performance_notes(&vec![], AccelerationBackend::Cpu),
        vec![
            "🐌 CPU-only: No GPU acceleration detected - performance may be limited",
            "💡 Tip: Consider upgrading hardware or installing GPU drivers for better performance"
        ]
    );
    assert!(generate_performance_notes(&vec![amd.clone()], AccelerationBackend::Cuda).is_empty());
    let tip = "💡 Tip: Ensure CUDA drivers are installed and up to date";
    assert_eq!(generate_performance_notes(&vec![amd.clone(), nvidia.clone()], AccelerationBackend::Cuda), vec![tip]);
    let cases = [
        (8.0f32, "🚀 Excellent: High-end NVIDIA GPU with sufficient VRAM"),
        (24.0, "🚀 Excellent: High-end NVIDIA GPU with sufficient VRAM"),
        (7.99, "⚡ Good: NVIDIA GPU available, but limited VRAM may affect large models"),
        (4.0, "⚡ Good: NVIDIA GPU available, but limited VRAM may affect large models"),
        (3.99, "⚠️ Limited: Low VRAM may require smaller models or CPU fallback"),
        (0.0, "⚠️ Limited: Low VRAM may require smaller models or CPU fallback"),
        (-8.0, "⚠️ Limited: Low VRAM may require smaller models or CPU fallback"),
        (f32::NAN, "⚠️ Limited: Low VRAM may require smaller models or CPU fallback"),
        (f32::INFINITY, "🚀 Excellent: High-end NVIDIA GPU with sufficient VRAM"),
    ];
    for (memory, note) in cases {
        nvidia.memory_gb = Some(memory.to_bits());
        assert_eq!(
            generate_performance_notes(&vec![amd.clone(), nvidia.clone()], AccelerationBackend::Cuda),
            vec![note, tip],
            "memory {}",
            memory
        );
    }
    assert_eq!(first_nvidia(&vec![amd.clone(), nvidia.clone(), nvidia.clone()]), Some(1));
    assert_eq!(first_nvidia(&vec![amd]), None);
}

#[test]
fn uploads_are_hashed_and_checked() {
    assert_eq!(
        content_hash(b"", ""),
        "e3b0c44298fc1c149afbf4c8996fb92427ae41e4649b934ca495991b7852b855"
    );
    assert_eq!(
        content_hash(b"ab", "c"),
        "ba7816bf8f01cfea414140de5dae2223b00361a396177a9cb410ff61f20015ad"
    );
    assert_eq!(content_hash(b"a", "bc"), content_hash(b"abc", ""));
    assert_ne!(content_hash(b"abc", "x"), content_hash(b"abc", "y"));
    let stored = vec!["h1".to_string(), "h2".to_string(), "h2".to_string()];
    assert_eq!(find_duplicate(&stored, "h2"), Some(1));
    assert_eq!(find_duplicate(&stored, "h3"), None);
    assert_eq!(find_duplicate(&vec![], "h1"), None);
    assert!(type_valid("text/plain"));
    assert!(type_valid("application/pdf; charset=binary"));
    assert!(type_valid("text/x-rust"));
    assert!(type_valid("application/msword"));
    assert!(type_valid("application/vnd.openxmlformats-officedocument.wordprocessingml.document"));
    assert!(!type_valid("image/png"));
    assert!(!type_valid("application/text/"));
    assert!(!type_valid(""));
    let statuses: Vec<String> =
        ["completed", "failed", "completed", "processing"].iter().map(|s| s.to_string()).collect();
    assert_eq!(count_status(&statuses, "completed"), 2);
    assert_eq!(count_status(&statuses, "failed"), 1);
    assert_eq!(count_status(&statuses, "pending"), 0);
    assert_eq!(count_status(&vec![], "completed"), 0);
}

#[test]
fn queries_are_keyed_and_remembered() {
    assert_eq!(generate_cache_key(""), "d41d8cd98f00b204e9800998ecf8427e");
    assert_eq!(generate_cache_key("abc"), "900150983cd24fb0d6963f7d28e17f72");
    let mut index = QueryCacheIndex::new();
    assert_eq!(index.len(), 0);
    assert!(!index.contains("k0"));
    for i in 0..100 {
        assert_eq!(index.remember(&format!("k{}", i)), None);
    }
    assert_eq!(index.len(), 100);
    assert_eq!(index.remember("k5"), None);
    assert_eq!(index.len(), 100);
    assert_eq!(index.remember("new"), Some("k0".to_string()));
    assert_eq!(index.len(), 100);
    assert!(!index.contains("k0"));
    assert!(index.contains("k1") && index.contains("new"));
    assert_eq!(index.remember("newer"), Some("k1".to_string()));
}

#[test]
fn completions_are_offered_for_two_letters_and_more() {
    assert!(get_query_suggestions("").is_empty());
    assert!(get_query_suggestions("d").is_empty());
    assert_eq!(get_query_suggestions("de"), vec!["deployment"]);
    assert_eq!(get_query_suggestions("DO"), vec!["documentation"]);
    assert_eq!(get_query_suggestions("da"), vec!["database"]);
    assert_eq!(get_query_suggestions("authentication"), vec!["authentication"]);
    assert!(get_query_suggestions("authentications").is_empty());
    assert!(get_query_suggestions("zz").is_empty());
}

#[test]
fn a_changed_model_is_loaded_anew() {
    assert_eq!(model_to_reload(true, Some("small"), Some("base")), Some("base".to_string()));
    assert_eq!(model_to_reload(true, Some("small"), Some("small")), None);
    assert_eq!(model_to_reload(true, None, Some("small")), None);
    assert_eq!(model_to_reload(true, Some("base"), None), Some("small".to_string()));
    assert_eq!(model_to_reload(true, None, None), None);
    assert_eq!(model_to_reload(false, None, Some("tiny")), Some("tiny".to_string()));
    assert_eq!(model_to_reload(false, Some("x"), None), None);
    assert_eq!(model_to_reload(false, None, Some("small")), Some("small".to_string()));
}

#[test]
fn audio_for_transcription_is_decoded() {
    assert_eq!(decode_audio_base64(""), Ok(vec![]));
    assert_eq!(decode_audio_base64("NBI="), Ok(vec![0x1234]));
    assert_eq!(decode_audio_base64("AQD//wCA/38="), Ok(vec![1, -1, -32768, 32767]));
    assert_eq!(decode_audio_base64("AQD/"), Ok(vec![1]));
    assert_eq!(decode_audio_base64("A"), Err(DecodeFailure::InvalidLength(1)));
    assert_eq!(decode_audio_base64("NB!="), Err(DecodeFailure::InvalidByte(2, b'!')));
    assert_eq!(decode_audio_base64("NBI"), Err(DecodeFailure::InvalidPadding));
    assert_eq!(decode_audio_base64("NBJ="), Err(DecodeFailure::InvalidLastSymbol(2, b'J')));
    assert_eq!(load_audio_file(&[0x34, 0x12, 0xff, 0xff, 0x01]), vec![0x1234, -1]);
    assert_eq!(load_audio_file(&[]), Vec::<i32>::new());
}

#[test]
fn texts_are_joined() {
    let parts = |v: &[&str]| v.iter().map(|s| s.to_string()).collect::<Vec<_>>();
    assert_eq!(join(&parts(&[]), ", "), "");
    assert_eq!(join(&parts(&["a"]), ", "), "a");
    assert_eq!(join(&parts(&["a", "b", "c"]), ", "), "a, b, c");
    assert_eq!(join(&parts(&["", ""]), "-"), "-");
    assert_eq!(join(&parts(&["a", "b"]), ""), "ab");
}

#[test]
fn plans_that_fail_get_their_feedback() {
    let tools = vec![tool("click", &["x", "y"]), tool("get_cursor_position", &[])];
    assert_eq!(get_plan_validation_feedback(&plan(vec![]), &tools), "Unknown validation issues");
    assert_eq!(
        get_plan_validation_feedback(&plan(vec![step("click", true)]), &tools),
        "Unknown validation issues"
    );
    assert_eq!(
        get_plan_validation_feedback(&plan(vec![step("click", false)]), &tools),
        "Tool 'click' requires parameters"
    );
    assert_eq!(
        get_plan_validation_feedback(
            &plan(vec![step("type", false), step("click", false), step("get_cursor_position", false)]),
            &tools
        ),
        "Tool 'type' does not exist, Tool 'click' requires parameters"
    );
}

#[test]
fn documents_pass_all_filters_or_none() {
    let f = SearchFilters {
        file_types: vec!["text/plain".to_string(), "application/pdf".to_string()],
        date_range: None,
        tags: vec![],
        min_size: Some(10),
        max_size: None,
        has_embeddings: Some(true),
    };
    assert!(f.type_passes("application/pdf"));
    assert!(!f.type_passes("text/markdown"));
    assert!(f.passes("text/plain", 10, "completed"));
    assert!(!f.passes("text/plain", 9, "completed"));
    assert!(!f.passes("text/plain", 10, "processing"));
    assert!(!f.passes("image/png", 10, "completed"));
    let open = SearchFilters { file_types: vec![], min_size: None, has_embeddings: Some(false), ..f };
    assert!(open.type_passes("anything"));
    assert!(open.passes("image/png", -5, "failed"));
    assert!(!open.passes("image/png", -5, "completed"));
}

#[test]
fn texts_are_searched_by_characters() {
    assert!(contains("stereo mix (realtek)", "stereo mix"));
    assert!(contains("abc", ""));
    assert!(contains("", ""));
    assert!(contains("abc", "abc"));
    assert!(contains("abc", "c"));
    assert!(contains("aab", "ab"));
    assert!(contains("caf\u{e9} au lait", "\u{e9} au"));
    assert!(!contains("abc", "abcd"));
    assert!(!contains("abc", "ac"));
    assert!(!contains("", "a"));
    assert!(!contains("cafe", "caf\u{e9}"));
    for (hay, needle) in [("loopback", "back"), ("what u hear", "u h"), ("xyz", "yy"), ("aaa", "aaaa")] {
        assert_eq!(contains(hay, needle), hay.contains(needle));
    }
    assert!(starts_with("text/plain", "text/"));
    assert!(starts_with("abc", ""));
    assert!(starts_with("abc", "abc"));
    assert!(!starts_with("abc", "abcd"));
    assert!(!starts_with("xtext/", "text/"));
    assert!(!starts_with("", "a"));
    let hay: Vec<char> = "hello".chars().collect();
    let pattern: Vec<char> = "ll".chars().collect();
    assert!(matches_at(&hay, &pattern, 2));
    assert!(!matches_at(&hay, &pattern, 3));
    assert!(!matches_at(&hay, &pattern, 4));
    assert!(matches_at(&hay, &vec![], 5));
    let list = vec!["a".to_string(), "b".to_string()];
    assert!(list_contains(&list, "b"));
    assert!(!list_contains(&list, "c"));
    assert!(!list_contains(&vec![], ""));
}
