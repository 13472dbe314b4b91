use mob_rs::error::ConfigError;
use mob_rs::logging::{LogContext, LogLevel};

#[test]
fn test_log_context_clear_tool() {
    let mut ctx = LogContext::with_task("cmake".to_string());
    ctx.set_tool("process".to_string());
    let with_tool = ctx.prefix();
    ctx.clear_tool();
    let after_clear = ctx.prefix();
    assert_eq!(with_tool, "[cmake/process] ");
    assert_eq!(after_clear, "[cmake] ");
    assert!(ctx.tool().is_none(), "tool should be None after clear_tool");
}

#[test]
fn test_log_level_conversion() {
    assert_eq!(LogLevel::from_int(0).as_u8(), 0);
    assert_eq!(LogLevel::from_int(3).as_u8(), 3);
    assert_eq!(LogLevel::from_int(5).as_u8(), 5);
    assert_eq!(LogLevel::from_int(100).as_u8(), 6);
}

#[test]
fn test_log_context_prefix() {
    let ctx_task_only = LogContext::with_task("cmake".to_string());
    let mut ctx_with_tool = LogContext::with_task("msbuild".to_string());
    ctx_with_tool.set_tool("process".to_string());
    let ctx_empty = LogContext::default();
    assert_eq!(ctx_task_only.prefix(), "[cmake] ");
    assert_eq!(ctx_with_tool.prefix(), "[msbuild/process] ");
    assert_eq!(ctx_empty.prefix(), "");
}

#[test]
fn test_config_error_display() {
    let err = ConfigError::MissingKey { section: "global".to_string(), key: "prefix".to_string() };
    assert_eq!(err.message(), "missing required config key 'prefix' in section '[global]'");
}
