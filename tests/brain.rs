use munin::brain::{
    build_profile, preset_for_tier, resolve_model_with_fallback, select_tier, tier_from_rank,
    tier_name, tier_rank, ModelTier,
};
use munin::endpoint::{decide_url, endpoint_url, route_request, transcript_url, BrainRoute};
use munin::intent::decide;
use munin::sts::StsSession;

fn fields(d: &munin::intent::Decision) -> Vec<(String, String)> {
    d.args.fields.iter().map(|f| (f.key.clone(), f.value.clone())).collect()
}

#[test]
fn ranks_round_trip() {
    for t in [ModelTier::Tier0Tiny, ModelTier::Tier1Mobile, ModelTier::Tier2Balanced, ModelTier::Tier3Performance] {
        assert_eq!(tier_from_rank(tier_rank(&t)), t);
    }
    assert_eq!(tier_from_rank(9), ModelTier::Tier3Performance);
    assert_eq!(tier_rank(&ModelTier::Tier2Balanced), 2);
}

#[test]
fn presets() {
    let p = preset_for_tier(&ModelTier::Tier1Mobile);
    assert_eq!(p.tier, ModelTier::Tier1Mobile);
    assert_eq!(p.model_id, "Qwen2.5-3B-Instruct-GGUF");
    assert_eq!(p.model_path, "/opt/muninos/models/qwen2.5-3b-instruct-q4_k_m.gguf");
    assert_eq!(p.quant, "Q4_K_M");
    assert_eq!(p.context, 4096);
    let p = preset_for_tier(&ModelTier::Tier3Performance);
    assert_eq!(p.quant, "Q5_K_M");
    assert_eq!(p.context, 8192);
}

#[test]
fn fallback_walks_down() {
    let (p, t, ok, w) = resolve_model_with_fallback(&ModelTier::Tier3Performance, &[false, true, false, false]);
    assert_eq!(t, ModelTier::Tier1Mobile);
    assert_eq!(p.tier, ModelTier::Tier1Mobile);
    assert!(ok);
    assert_eq!(w.as_deref(), Some("requested Tier3Performance unavailable; fell back to Tier1Mobile"));

    let (_, t, ok, w) = resolve_model_with_fallback(&ModelTier::Tier2Balanced, &[true, true, true, true]);
    assert_eq!(t, ModelTier::Tier2Balanced);
    assert!(ok);
    assert!(w.is_none());

    let (p, t, ok, w) = resolve_model_with_fallback(&ModelTier::Tier1Mobile, &[false, false, true, true]);
    assert_eq!(t, ModelTier::Tier0Tiny);
    assert_eq!(p.model_id, "TinyLlama-1.1B-Chat-v1.0-GGUF");
    assert!(!ok);
    assert_eq!(
        w.as_deref(),
        Some("no model file found for any tier under /opt/muninos/models; expected one of preset paths")
    );
}

#[test]
fn machine_tiers() {
    assert_eq!(select_tier(4, 16, true), ModelTier::Tier0Tiny);
    assert_eq!(select_tier(64, 2, true), ModelTier::Tier0Tiny);
    assert_eq!(select_tier(8, 16, true), ModelTier::Tier1Mobile);
    assert_eq!(select_tier(16, 4, true), ModelTier::Tier1Mobile);
    assert_eq!(select_tier(16, 8, false), ModelTier::Tier2Balanced);
    assert_eq!(select_tier(16, 8, true), ModelTier::Tier3Performance);
    assert_eq!(tier_name(&ModelTier::Tier0Tiny), "Tier0Tiny");
}

#[test]
fn profile_of_machine() {
    let p = build_profile("aarch64".to_string(), 8, 16 * 1024 * 1024, Some("1"), &[true, false, false, false]);
    assert_eq!(p.ram_gb, 16);
    assert!(p.gpu_hint);
    assert_eq!(p.tier, ModelTier::Tier3Performance);
    assert_eq!(p.resolved_tier, ModelTier::Tier0Tiny);
    assert!(p.model_available);
    assert_eq!(p.backend, "llama.cpp");
    assert_eq!(p.arch, "aarch64");
    let p = build_profile("x".to_string(), 8, 16 * 1024 * 1024, Some("yes"), &[true, true, true, true]);
    assert!(!p.gpu_hint);
    assert_eq!(p.tier, ModelTier::Tier2Balanced);
    assert!(p.warning.is_none());
}

#[test]
fn brain_decisions() {
    let d = decide("What is the STATUS?");
    assert_eq!(d.intent, "system_status");
    assert_eq!(d.tool.as_deref(), Some("system.status"));
    assert!(fields(&d).is_empty());
    let d = decide("exec ls ");
    assert_eq!(d.tool.as_deref(), Some("system.exec"));
    assert_eq!(d.intent, "system_exec");
    assert!(d.requires_confirmation);
    assert_eq!(fields(&d), vec![("command".to_string(), "ls".to_string())]);
    let d = decide("write a :: b");
    assert_eq!(d.intent, "write_file");
    assert!(d.requires_confirmation);
    let d = decide("READ /X");
    assert_eq!(fields(&d), vec![("path".to_string(), "/x".to_string())]);
    let d = decide("get u");
    assert_eq!(d.intent, "network_get");
    assert!(!d.requires_confirmation);
    let d = decide("hello there ");
    assert_eq!(d.intent, "chat");
    assert!(d.tool.is_none());
    assert_eq!(fields(&d), vec![("text".to_string(), "hello there ".to_string())]);
}

#[test]
fn endpoints_drop_trailing_slashes() {
    assert_eq!(endpoint_url("http://h:1//", "/v1/x"), "http://h:1/v1/x");
    assert_eq!(decide_url("http://127.0.0.1:8790"), "http://127.0.0.1:8790/v1/decide");
    assert_eq!(transcript_url("http://c/"), "http://c/v1/transcript");
    assert_eq!(endpoint_url("", "/a"), "/a");
}

#[test]
fn brain_routes() {
    assert_eq!(route_request("GET", "/health"), BrainRoute::Health);
    assert_eq!(route_request("POST", "/v1/decide"), BrainRoute::Decide);
    assert_eq!(route_request("GET", "/v1/decide"), BrainRoute::NotFound);
    assert_eq!(route_request("POST", "/health"), BrainRoute::NotFound);
}

#[test]
fn speech_session() {
    let s = StsSession::new("http://core/".to_string(), "http://brain".to_string());
    assert_eq!(s.session_id.len(), 36);
    assert_eq!(s.decide_url(), "http://brain/v1/decide");
    assert_eq!(s.transcript_url(), "http://core/v1/transcript");
    let t = s.turn("hi");
    assert_eq!(t.session_id, s.session_id);
    assert_eq!(t.transcript, "hi");
    assert_eq!(t.locale, "en-US");
    let other = StsSession::new(String::new(), String::new());
    assert_ne!(other.session_id, s.session_id);
}
