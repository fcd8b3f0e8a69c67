use mu_alb::model::{Config, Context};

#[test]
fn default_config_is_blank() {
    let config = Config::default();
    assert_eq!(config.endpoint, "");
    assert_eq!(config.function_name, "");
    assert_eq!(config.memory, 0);
    assert_eq!(config.version, "");
    assert_eq!(config.log_stream, "");
    assert_eq!(config.log_group, "");
}

#[test]
fn default_context_is_blank() {
    let ctx = Context::default();
    assert_eq!(ctx.request_id, "");
    assert_eq!(ctx.deadline, 0);
    assert_eq!(ctx.invoked_function_arn, "");
    assert_eq!(ctx.xray_trace_id, "");
    assert_eq!(ctx.client_context, None);
    assert_eq!(ctx.identity, None);
    assert_eq!(ctx.env_config, Config::default());
    assert_eq!(ctx.invocations, 0);
}

#[test]
fn context_clone_is_equal() {
    let mut ctx = Context::default();
    ctx.request_id = "r-1".to_string();
    ctx.invocations = u32::MAX;
    ctx.deadline = u64::MAX;
    let copy = ctx.clone();
    assert_eq!(copy, ctx);
    assert_eq!(copy.invocations, u32::MAX);
    assert_eq!(copy.deadline, u64::MAX);
}
