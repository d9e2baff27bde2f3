//! The local "brain": model tiers and their presets, the choice of a tier for
//! a machine, the fallback to a preset whose model file is present, and the
//! brain's own intent decision.
use vstd::prelude::*;

verus! {

#[derive(Clone, Copy, PartialEq, Eq, Structural, Debug)]
pub enum ModelTier {
    Tier0Tiny,
    Tier1Mobile,
    Tier2Balanced,
    Tier3Performance,
}

pub struct ModelPreset {
    pub tier: ModelTier,
    pub model_id: String,
    pub model_path: String,
    pub quant: String,
    pub context: usize,
}

pub struct PresetView {
    pub tier: ModelTier,
    pub model_id: Seq<char>,
    pub model_path: Seq<char>,
    pub quant: Seq<char>,
    pub context: usize,
}

impl View for ModelPreset {
    type V = PresetView;

    open spec fn view(&self) -> PresetView {
        PresetView {
            tier: self.tier,
            model_id: self.model_id@,
            model_path: self.model_path@,
            quant: self.quant@,
            context: self.context,
        }
    }
}

pub open spec fn rank_of(t: ModelTier) -> u8 {
    match t {
        ModelTier::Tier0Tiny => 0,
        ModelTier::Tier1Mobile => 1,
        ModelTier::Tier2Balanced => 2,
        ModelTier::Tier3Performance => 3,
    }
}

/// The tier of a rank; every rank above 2 is the top tier.
pub open spec fn tier_of_rank(r: u8) -> ModelTier {
    if r == 0 {
        ModelTier::Tier0Tiny
    } else if r == 1 {
        ModelTier::Tier1Mobile
    } else if r == 2 {
        ModelTier::Tier2Balanced
    } else {
        ModelTier::Tier3Performance
    }
}

/// The model that each tier runs.
pub open spec fn preset_spec(t: ModelTier) -> PresetView {
    match t {
        ModelTier::Tier0Tiny => PresetView {
            tier: t,
            model_id: "TinyLlama-1.1B-Chat-v1.0-GGUF"@,
            model_path: "/opt/muninos/models/tinyllama-1.1b-chat-v1.0.Q4_K_M.gguf"@,
            quant: "Q4_K_M"@,
            context: 2048,
        },
        ModelTier::Tier1Mobile => PresetView {
            tier: t,
            model_id: "Qwen2.5-3B-Instruct-GGUF"@,
            model_path: "/opt/muninos/models/qwen2.5-3b-instruct-q4_k_m.gguf"@,
            quant: "Q4_K_M"@,
            context: 4096,
        },
        ModelTier::Tier2Balanced => PresetView {
            tier: t,
            model_id: "Mistral-7B-Instruct-v0.2-GGUF"@,
            model_path: "/opt/muninos/models/mistral-7b-instruct-v0.2.Q4_K_M.gguf"@,
            quant: "Q4_K_M"@,
            context: 8192,
        },
        ModelTier::Tier3Performance => PresetView {
            tier: t,
            model_id: "Llama-2-13B-Chat-GGUF"@,
            model_path: "/opt/muninos/models/llama-2-13b-chat.Q5_K_M.gguf"@,
            quant: "Q5_K_M"@,
            context: 8192,
        },
    }
}

pub fn tier_rank(t: &ModelTier) -> (r: u8)
    ensures
        r == rank_of(*t),
        r <= 3,
{
    match t {
        ModelTier::Tier0Tiny => 0,
        ModelTier::Tier1Mobile => 1,
        ModelTier::Tier2Balanced => 2,
        ModelTier::Tier3Performance => 3,
    }
}

pub fn tier_from_rank(r: u8) -> (t: ModelTier)
    ensures
        t == tier_of_rank(r),
        r <= 3 ==> rank_of(t) == r,
{
    match r {
        0 => ModelTier::Tier0Tiny,
        1 => ModelTier::Tier1Mobile,
        2 => ModelTier::Tier2Balanced,
        _ => ModelTier::Tier3Performance,
    }
}

/// The name of a tier as it appears in messages.
pub fn tier_name(t: &ModelTier) -> (r: &'static str)
    ensures
        r@ == tier_name_spec(*t),
{
    match t {
        ModelTier::Tier0Tiny => "Tier0Tiny",
        ModelTier::Tier1Mobile => "Tier1Mobile",
        ModelTier::Tier2Balanced => "Tier2Balanced",
        ModelTier::Tier3Performance => "Tier3Performance",
    }
}

pub open spec fn tier_name_spec(t: ModelTier) -> Seq<char> {
    match t {
        ModelTier::Tier0Tiny => "Tier0Tiny"@,
        ModelTier::Tier1Mobile => "Tier1Mobile"@,
        ModelTier::Tier2Balanced => "Tier2Balanced"@,
        ModelTier::Tier3Performance => "Tier3Performance"@,
    }
}

pub fn preset_for_tier(tier: &ModelTier) -> (r: ModelPreset)
    ensures
        r@ == preset_spec(*tier),
{
    match tier {
        ModelTier::Tier0Tiny => ModelPreset {
            tier: ModelTier::Tier0Tiny,
            model_id: String::from_str("TinyLlama-1.1B-Chat-v1.0-GGUF"),
            model_path: String::from_str("/opt/muninos/models/tinyllama-1.1b-chat-v1.0.Q4_K_M.gguf"),
            quant: String::from_str("Q4_K_M"),
            context: 2048,
        },
        ModelTier::Tier1Mobile => ModelPreset {
            tier: ModelTier::Tier1Mobile,
            model_id: String::from_str("Qwen2.5-3B-Instruct-GGUF"),
            model_path: String::from_str("/opt/muninos/models/qwen2.5-3b-instruct-q4_k_m.gguf"),
            quant: String::from_str("Q4_K_M"),
            context: 4096,
        },
        ModelTier::Tier2Balanced => ModelPreset {
            tier: ModelTier::Tier2Balanced,
            model_id: String::from_str("Mistral-7B-Instruct-v0.2-GGUF"),
            model_path: String::from_str("/opt/muninos/models/mistral-7b-instruct-v0.2.Q4_K_M.gguf"),
            quant: String::from_str("Q4_K_M"),
            context: 8192,
        },
        ModelTier::Tier3Performance => ModelPreset {
            tier: ModelTier::Tier3Performance,
            model_id: String::from_str("Llama-2-13B-Chat-GGUF"),
            model_path: String::from_str("/opt/muninos/models/llama-2-13b-chat.Q5_K_M.gguf"),
            quant: String::from_str("Q5_K_M"),
            context: 8192,
        },
    }
}

/// The highest rank at or below `r` whose model file is present, if any.
pub open spec fn fallback_rank(r: int, present: Seq<bool>) -> Option<int>
    decreases r + 1,
{
    if r < 0 || r >= present.len() {
        None
    } else if present[r] {
        Some(r)
    } else {
        fallback_rank(r - 1, present)
    }
}

pub open spec fn fallback_warning(target: ModelTier, got: ModelTier) -> Seq<char> {
    "requested "@ + tier_name_spec(target) + " unavailable; fell back to "@ + tier_name_spec(got)
}

pub open spec fn missing_warning() -> Seq<char> {
    "no model file found for any tier under /opt/muninos/models; expected one of preset paths"@
}

/// The preset, tier, availability and warning that the fallback settles on,
/// given which tiers' model files are present (indexed by rank).
pub open spec fn resolution(target: ModelTier, present: Seq<bool>) -> (
    PresetView,
    ModelTier,
    bool,
    Option<Seq<char>>,
) {
    match fallback_rank(rank_of(target) as int, present) {
        Some(r) => {
            let got = tier_of_rank(r as u8);
            (
                preset_spec(got),
                got,
                true,
                if r != rank_of(target) {
                    Some(fallback_warning(target, got))
                } else {
                    None
                },
            )
        },
        None => (preset_spec(ModelTier::Tier0Tiny), ModelTier::Tier0Tiny, false, Some(missing_warning())),
    }
}

pub open spec fn opt_view(o: Option<String>) -> Option<Seq<char>> {
    match o {
        Some(s) => Some(s@),
        None => None,
    }
}

/// Walks down from the target tier to the first whose model file is present;
/// `present[r]` says whether the preset of rank `r` has its file.
pub fn resolve_model_with_fallback(target_tier: &ModelTier, present: &[bool; 4]) -> (r: (
    ModelPreset,
    ModelTier,
    bool,
    Option<String>,
))
    ensures
        (r.0@, r.1, r.2, opt_view(r.3)) == resolution(*target_tier, present@),
{
    let target = tier_rank(target_tier);
    let mut r: u8 = target;
    loop
        invariant
            r <= target <= 3,
            target == rank_of(*target_tier),
            present@.len() == 4,
            fallback_rank(rank_of(*target_tier) as int, present@) == fallback_rank(r as int, present@),
        decreases r,
    {
        let tier = tier_from_rank(r);
        if present[r as usize] {
            assert(fallback_rank(r as int, present@) == Some(r as int));
            let mut warning: Option<String> = None;
            if r != target {
                let mut w = String::from_str("requested ");
                w.append(tier_name(target_tier));
                w.append(" unavailable; fell back to ");
                w.append(tier_name(&tier));
                assert(w@ =~= fallback_warning(*target_tier, tier));
                warning = Some(w);
            }
            let preset = preset_for_tier(&tier);
            return (preset, tier, true, warning);
        }
        if r == 0 {
            assert(fallback_rank(0, present@) is None);
            let preset = preset_for_tier(&tier);
            let w = String::from_str(
                "no model file found for any tier under /opt/muninos/models; expected one of preset paths",
            );
            return (preset, tier, false, Some(w));
        }
        assert(fallback_rank(r as int, present@) == fallback_rank(r - 1, present@));
        r = r - 1;
    }
}

/// The tier a machine can carry: small memory or few cores first, then
/// whether a GPU was announced.
pub open spec fn tier_for_machine(ram_gb: u64, cpus: usize, gpu_hint: bool) -> ModelTier {
    if ram_gb <= 4 || cpus <= 2 {
        ModelTier::Tier0Tiny
    } else if ram_gb <= 8 || cpus <= 4 {
        ModelTier::Tier1Mobile
    } else if !gpu_hint {
        ModelTier::Tier2Balanced
    } else {
        ModelTier::Tier3Performance
    }
}

pub fn select_tier(ram_gb: u64, cpus: usize, gpu_hint: bool) -> (r: ModelTier)
    ensures
        r == tier_for_machine(ram_gb, cpus, gpu_hint),
{
    if ram_gb <= 4 || cpus <= 2 {
        ModelTier::Tier0Tiny
    } else if ram_gb <= 8 || cpus <= 4 {
        ModelTier::Tier1Mobile
    } else if !gpu_hint {
        ModelTier::Tier2Balanced
    } else {
        ModelTier::Tier3Performance
    }
}

/// What the brain knows of the machine and the model it settled on.
pub struct RuntimeProfile {
    pub arch: String,
    pub cpus: usize,
    pub ram_gb: u64,
    pub gpu_hint: bool,
    pub tier: ModelTier,
    pub backend: String,
    pub selected_model: ModelPreset,
    pub resolved_tier: ModelTier,
    pub model_available: bool,
    pub warning: Option<String>,
}

/// The profile of a machine from its architecture, core count, total memory
/// (divided twice by 1024 to give the memory figure), the GPU variable's value
/// (a GPU is announced by exactly "1") and which preset files are present.
pub fn build_profile(
    arch: String,
    cpus: usize,
    total_memory: u64,
    gpu_var: Option<&str>,
    present: &[bool; 4],
) -> (r: RuntimeProfile)
    ensures
        r.arch@ == arch@,
        r.cpus == cpus,
        r.ram_gb == total_memory / 1024 / 1024,
        r.gpu_hint == (gpu_var is Some && gpu_var->0@ == "1"@),
        r.tier == tier_for_machine(r.ram_gb, cpus, r.gpu_hint),
        r.backend@ == "llama.cpp"@,
        (r.selected_model@, r.resolved_tier, r.model_available, opt_view(r.warning)) == resolution(
            r.tier,
            present@,
        ),
{
    let ram_gb = total_memory / 1024 / 1024;
    let gpu_hint = match gpu_var {
        Some(v) => crate::text::same_text(v, "1"),
        None => false,
    };
    let tier = select_tier(ram_gb, cpus, gpu_hint);
    let (selected_model, resolved_tier, model_available, warning) = resolve_model_with_fallback(
        &tier,
        present,
    );
    RuntimeProfile {
        arch,
        cpus,
        ram_gb,
        gpu_hint,
        tier,
        backend: String::from_str("llama.cpp"),
        selected_model,
        resolved_tier,
        model_available,
        warning,
    }
}

} // verus!
