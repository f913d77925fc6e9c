//! Nodes and the models that they publish: how far a node is trusted, whether it
//! takes work, and what it may publish.

use vstd::prelude::*;

use crate::billing;
use crate::error;
use crate::error::ApiError;
use crate::ids::Uuid;
use crate::text;

verus! {

/// How far a node is trusted.
#[derive(Clone, Copy, Debug, PartialEq, Eq, Structural)]
pub enum TrustLevel {
    Enhanced,
    Standard,
    StandardLimited,
    Experimental,
    Unverified,
}

impl TrustLevel {
    pub open spec fn name(self) -> Seq<char> {
        match self {
            TrustLevel::Enhanced => "enhanced"@,
            TrustLevel::Standard => "standard"@,
            TrustLevel::StandardLimited => "standard-limited"@,
            TrustLevel::Experimental => "experimental"@,
            TrustLevel::Unverified => "unverified"@,
        }
    }
}

pub fn trust_level_db(trust: TrustLevel) -> (name: &'static str)
    ensures
        name@ == trust.name(),
{
    match trust {
        TrustLevel::Enhanced => "enhanced",
        TrustLevel::Standard => "standard",
        TrustLevel::StandardLimited => "standard-limited",
        TrustLevel::Experimental => "experimental",
        TrustLevel::Unverified => "unverified",
    }
}

pub fn parse_db_trust_level(value: &str) -> (trust: Result<TrustLevel, ApiError>)
    ensures
        trust matches Ok(trust) ==> trust.name() == value@,
        trust matches Err(refused) ==> refused == ApiError::internal() && forall|
            trust: TrustLevel,
        |
            #[trigger] trust.name() != value@,
{
    if text::same_text(value, "enhanced") {
        Ok(TrustLevel::Enhanced)
    } else if text::same_text(value, "standard") {
        Ok(TrustLevel::Standard)
    } else if text::same_text(value, "standard-limited") {
        Ok(TrustLevel::StandardLimited)
    } else if text::same_text(value, "experimental") {
        Ok(TrustLevel::Experimental)
    } else if text::same_text(value, "unverified") {
        Ok(TrustLevel::Unverified)
    } else {
        Err(ApiError::internal())
    }
}

/// Trust levels have different names, so that a stored level is read back as the one
/// that was stored.
pub proof fn trust_levels_are_told_apart(first: TrustLevel, second: TrustLevel)
    requires
        first.name() == second.name(),
    ensures
        first == second,
{
    reveal_strlit("enhanced");
    reveal_strlit("standard");
    reveal_strlit("standard-limited");
    reveal_strlit("experimental");
    reveal_strlit("unverified");
    assert("enhanced"@.len() == 8 && "enhanced"@[0] == 'e');
    assert("standard"@.len() == 8 && "standard"@[0] == 's');
    assert("standard-limited"@.len() == 16);
    assert("experimental"@.len() == 12);
    assert("unverified"@.len() == 10);
}

/// A way in which an operating system confines a process.
#[derive(Clone, Copy, Debug, PartialEq, Eq, Structural)]
pub enum SandboxMechanism {
    Seatbelt,
    AppSandbox,
    Namespaces,
    SeccompBpf,
    Landlock,
    AppArmor,
    JobObjects,
    AppContainer,
    HyperV,
}

/// What a node reports of its system, as far as trust depends on it.
pub struct HardwareProfile {
    pub operating_system: String,
    pub sandbox_mechanisms: Vec<SandboxMechanism>,
}

impl HardwareProfile {
    pub open spec fn confines_by(self, mechanism: SandboxMechanism) -> bool {
        self.sandbox_mechanisms@.contains(mechanism)
    }

    fn has(&self, mechanism: SandboxMechanism) -> (has: bool)
        ensures
            has == self.confines_by(mechanism),
    {
        let mut i: usize = 0;
        while i < self.sandbox_mechanisms.len()
            invariant
                i <= self.sandbox_mechanisms@.len(),
                forall|j: int| 0 <= j < i ==> self.sandbox_mechanisms@[j] != mechanism,
            decreases self.sandbox_mechanisms@.len() - i,
        {
            if self.sandbox_mechanisms[i] == mechanism {
                return true;
            }
            i += 1;
        }
        false
    }
}

/// The trust that the system of a node earns by itself. Hardware evidence alone
/// earns more.
pub open spec fn software_trust(profile: HardwareProfile) -> TrustLevel {
    let system = text::ascii_lowercase(text::trimmed(profile.operating_system@));
    if system == "macos"@ {
        if profile.confines_by(SandboxMechanism::Seatbelt) || profile.confines_by(
            SandboxMechanism::AppSandbox,
        ) {
            TrustLevel::StandardLimited
        } else {
            TrustLevel::Unverified
        }
    } else if system == "linux"@ {
        if !profile.confines_by(SandboxMechanism::Namespaces) || !profile.confines_by(
            SandboxMechanism::SeccompBpf,
        ) {
            TrustLevel::Unverified
        } else if profile.confines_by(SandboxMechanism::Landlock) {
            TrustLevel::Standard
        } else {
            TrustLevel::StandardLimited
        }
    } else if system == "windows"@ {
        if profile.confines_by(SandboxMechanism::JobObjects) || profile.confines_by(
            SandboxMechanism::AppContainer,
        ) || profile.confines_by(SandboxMechanism::HyperV) {
            TrustLevel::Experimental
        } else {
            TrustLevel::Unverified
        }
    } else {
        TrustLevel::Unverified
    }
}

pub fn software_trust_level(profile: &HardwareProfile) -> (trust: TrustLevel)
    ensures
        trust == software_trust(*profile),
{
    let system = text::to_ascii_lowercase(text::trim(profile.operating_system.as_str()));
    let system = system.as_str();
    proof {
        reveal_strlit("macos");
        reveal_strlit("linux");
        reveal_strlit("windows");
        assert("macos"@[0] == 'm');
        assert("linux"@[0] == 'l');
        assert("windows"@[0] == 'w');
    }
    if text::same_text(system, "macos") {
        if profile.has(SandboxMechanism::Seatbelt) || profile.has(SandboxMechanism::AppSandbox) {
            TrustLevel::StandardLimited
        } else {
            TrustLevel::Unverified
        }
    } else if text::same_text(system, "linux") {
        if profile.has(SandboxMechanism::Namespaces) && profile.has(SandboxMechanism::SeccompBpf)
            && profile.has(SandboxMechanism::Landlock) {
            TrustLevel::Standard
        } else if profile.has(SandboxMechanism::Namespaces) && profile.has(
            SandboxMechanism::SeccompBpf,
        ) {
            TrustLevel::StandardLimited
        } else {
            TrustLevel::Unverified
        }
    } else if text::same_text(system, "windows") {
        if profile.has(SandboxMechanism::JobObjects) || profile.has(SandboxMechanism::AppContainer)
            || profile.has(SandboxMechanism::HyperV) {
            TrustLevel::Experimental
        } else {
            TrustLevel::Unverified
        }
    } else {
        TrustLevel::Unverified
    }
}

/// Software alone never earns the trust that hardware evidence does, and without a
/// way to confine a process it earns none.
pub proof fn software_never_earns_enhanced_trust(profile: HardwareProfile)
    ensures
        software_trust(profile) != TrustLevel::Enhanced,
        profile.sandbox_mechanisms@.len() == 0 ==> software_trust(profile)
            == TrustLevel::Unverified,
{
}

/// What a node reports of itself at a heartbeat.
#[derive(Clone, Copy, Debug, PartialEq, Eq, Structural)]
pub struct Heartbeat {
    pub current_concurrent: i32,
    pub gpu_temp_c: Option<i32>,
    pub vram_used_mib: Option<i64>,
    pub vram_total_mib: Option<i64>,
    pub draining: bool,
}

/// The limits that the owner of a node set.
#[derive(Clone, Copy, Debug, PartialEq, Eq, Structural)]
pub struct NodeLimits {
    pub max_concurrent: i32,
    pub gpu_temp_limit_c: Option<i32>,
    pub vram_reserve_mib: i64,
}

/// Why a node pauses.
#[derive(Clone, Copy, Debug, PartialEq, Eq, Structural)]
pub enum PauseReason {
    GpuTemperatureLimit,
    VramReserve,
    MaxConcurrent,
}

/// What a node does from a heartbeat on.
#[derive(Clone, Copy, Debug, PartialEq, Eq, Structural)]
pub enum NodeActivity {
    Online,
    Paused,
    Draining,
}

/// The degrees that a node that paused for its temperature has to cool down below
/// its limit.
pub const RESUME_HYSTERESIS_C: i32 = 5;

/// A node that has a temperature limit pauses at it, or where its temperature is
/// unknown. Once paused it resumes only well below the limit.
pub open spec fn too_hot(limit: Option<i32>, temperature: Option<i32>, was_paused: bool) -> bool {
    match (limit, temperature) {
        (None, _) => false,
        (Some(_), None) => true,
        (Some(limit), Some(temperature)) => if was_paused {
            temperature > if limit - RESUME_HYSTERESIS_C < i32::MIN {
                i32::MIN as int
            } else {
                limit - RESUME_HYSTERESIS_C
            }
        } else {
            temperature >= limit
        },
    }
}

/// A node whose free memory is known keeps its reserve free.
pub open spec fn lacks_vram(used: Option<i64>, total: Option<i64>, reserve: i64) -> bool {
    match (used, total) {
        (Some(used), Some(total)) => crate::arithmetic::clamped_i64(total - used) < reserve,
        _ => false,
    }
}

pub open spec fn heartbeat_pause(
    beat: Heartbeat,
    limits: NodeLimits,
    was_temperature_paused: bool,
) -> Option<PauseReason> {
    if beat.current_concurrent >= limits.max_concurrent {
        Some(PauseReason::MaxConcurrent)
    } else if lacks_vram(beat.vram_used_mib, beat.vram_total_mib, limits.vram_reserve_mib) {
        Some(PauseReason::VramReserve)
    } else if too_hot(limits.gpu_temp_limit_c, beat.gpu_temp_c, was_temperature_paused) {
        Some(PauseReason::GpuTemperatureLimit)
    } else {
        None
    }
}

pub open spec fn heartbeat_activity(beat: Heartbeat, pause: Option<PauseReason>) -> NodeActivity {
    if beat.draining {
        NodeActivity::Draining
    } else if pause is Some {
        NodeActivity::Paused
    } else {
        NodeActivity::Online
    }
}

/// The node was paused, and for its temperature.
pub fn paused_for_temperature(status: &str, pause_reason: &Option<String>) -> (paused: bool)
    ensures
        paused == (status@ == "paused"@ && text::holds(
            *pause_reason,
            "gpu_temperature_limit"@,
        )),
{
    text::same_text(status, "paused") && text::option_holds(pause_reason, "gpu_temperature_limit")
}

/// Decides what a node does from a heartbeat on, and why it pauses if it does. Only
/// an online node takes work.
pub fn node_heartbeat(beat: Heartbeat, limits: NodeLimits, was_temperature_paused: bool) -> (decided: (
    NodeActivity,
    Option<PauseReason>,
))
    ensures
        decided.1 == heartbeat_pause(beat, limits, was_temperature_paused),
        decided.0 == heartbeat_activity(beat, decided.1),
{
    let hot = match limits.gpu_temp_limit_c {
        None => false,
        Some(limit) => match beat.gpu_temp_c {
            None => true,
            Some(temperature) => if was_temperature_paused {
                temperature as i64 > limit as i64 - RESUME_HYSTERESIS_C as i64 && temperature
                    > i32::MIN
            } else {
                temperature >= limit
            },
        },
    };
    let mut pause: Option<PauseReason> = None;
    if hot {
        pause = Some(PauseReason::GpuTemperatureLimit);
    }
    match (beat.vram_used_mib, beat.vram_total_mib) {
        (Some(used), Some(total)) => if crate::arithmetic::saturating_sub_i64(total, used)
            < limits.vram_reserve_mib {
            pause = Some(PauseReason::VramReserve);
        },
        _ => {},
    }
    if beat.current_concurrent >= limits.max_concurrent {
        pause = Some(PauseReason::MaxConcurrent);
    }
    let activity = if beat.draining {
        NodeActivity::Draining
    } else if pause.is_some() {
        NodeActivity::Paused
    } else {
        NodeActivity::Online
    };
    (activity, pause)
}

/// The names under which activities and reasons are stored.
impl NodeActivity {
    pub fn db_name(self) -> (name: &'static str)
        ensures
            name@ == match self {
                NodeActivity::Online => "online"@,
                NodeActivity::Paused => "paused"@,
                NodeActivity::Draining => "draining"@,
            },
    {
        match self {
            NodeActivity::Online => "online",
            NodeActivity::Paused => "paused",
            NodeActivity::Draining => "draining",
        }
    }
}

impl PauseReason {
    pub fn db_name(self) -> (name: &'static str)
        ensures
            name@ == match self {
                PauseReason::GpuTemperatureLimit => "gpu_temperature_limit"@,
                PauseReason::VramReserve => "vram_reserve"@,
                PauseReason::MaxConcurrent => "max_concurrent"@,
            },
    {
        match self {
            PauseReason::GpuTemperatureLimit => "gpu_temperature_limit",
            PauseReason::VramReserve => "vram_reserve",
            PauseReason::MaxConcurrent => "max_concurrent",
        }
    }
}

/// A node that is online is within all its limits; one that has a temperature limit
/// and does not know its temperature is not.
pub proof fn online_nodes_are_within_their_limits(
    beat: Heartbeat,
    limits: NodeLimits,
    was_temperature_paused: bool,
)
    requires
        heartbeat_activity(beat, heartbeat_pause(beat, limits, was_temperature_paused))
            == NodeActivity::Online,
        limits.gpu_temp_limit_c != Some(i32::MIN),
    ensures
        !beat.draining,
        beat.current_concurrent < limits.max_concurrent,
        limits.gpu_temp_limit_c matches Some(limit) ==> beat.gpu_temp_c is Some
            && beat.gpu_temp_c->0 < limit,
        beat.vram_used_mib is Some && beat.vram_total_mib is Some && beat.vram_total_mib->0
            >= beat.vram_used_mib->0 >= 0 ==> beat.vram_total_mib->0 - beat.vram_used_mib->0
            >= limits.vram_reserve_mib,
{
}

/// Once paused for its temperature, a node stays paused at temperatures at which a
/// running node would go on.
pub proof fn hot_nodes_resume_late(limit: i32, temperature: i32)
    requires
        i32::MIN + RESUME_HYSTERESIS_C <= limit,
        limit - RESUME_HYSTERESIS_C < temperature < limit,
    ensures
        too_hot(Some(limit), Some(temperature), true),
        !too_hot(Some(limit), Some(temperature), false),
{
}

pub open spec fn alias_refusal(alias: Seq<char>) -> Option<ApiError> {
    if 1 <= text::trimmed(alias).len() <= 64 {
        None
    } else {
        Some(ApiError::bad_request("invalid_alias", "别名长度必须为 1 到 64 个字符"))
    }
}

pub fn validate_alias(alias: &str) -> (valid: Result<(), ApiError>)
    ensures
        valid == error::unless(alias_refusal(alias@), ()),
{
    let length = text::characters(text::trim(alias)).len();
    if length < 1 || length > 64 {
        return Err(ApiError::bad_request("invalid_alias", "别名长度必须为 1 到 64 个字符"));
    }
    Ok(())
}

/// A short ASCII text.
pub open spec fn is_tag(tag: Seq<char>) -> bool {
    0 < tag.len() <= 64 && vstd::utf8::is_ascii_chars(tag)
}

pub open spec fn tags_refusal(tags: Seq<String>) -> Option<ApiError> {
    if tags.len() <= 32 && forall|i: int| 0 <= i < tags.len() ==> is_tag((#[trigger] tags[i])@) {
        None
    } else {
        Some(
            ApiError::bad_request(
                "invalid_tags",
                "标签必须是最多 32 个、每个不超过 64 字节的 ASCII 字符串",
            ),
        )
    }
}

fn valid_tag(tag: &str) -> (valid: bool)
    ensures
        valid == is_tag(tag@),
{
    proof {
        if vstd::utf8::is_ascii_chars(tag@) {
            vstd::utf8::is_ascii_chars_encode_utf8(tag@);
        }
    }
    !tag.is_empty() && text::bytes_in(tag) <= 64 && tag.is_ascii()
}

pub fn validate_tags(tags: &[String]) -> (valid: Result<(), ApiError>)
    ensures
        valid == error::unless(tags_refusal(tags@), ()),
{
    if tags.len() > 32 {
        return Err(
            ApiError::bad_request(
                "invalid_tags",
                "标签必须是最多 32 个、每个不超过 64 字节的 ASCII 字符串",
            ),
        );
    }
    let mut i: usize = 0;
    while i < tags.len()
        invariant
            i <= tags@.len() <= 32,
            forall|j: int| 0 <= j < i ==> is_tag((#[trigger] tags@[j])@),
        decreases tags@.len() - i,
    {
        if !valid_tag(tags[i].as_str()) {
            assert(!is_tag(tags@[i as int]@));
            return Err(
                ApiError::bad_request(
                    "invalid_tags",
                    "标签必须是最多 32 个、每个不超过 64 字节的 ASCII 字符串",
                ),
            );
        }
        i += 1;
    }
    Ok(())
}

/// The price of a thousand tokens that models are published at.
pub const V1_BASE_COST_PER_1K_MICRO: i64 = 1_000_000;

/// A request to publish a model.
pub struct PublishModelRequest {
    pub node_id: Uuid,
    pub name: String,
    pub alias: String,
    pub format: String,
    pub weights_hash: String,
    pub size_bytes: i64,
    pub context_length: i32,
    pub benchmark_normalized: i32,
    pub glicko_normalized: i32,
    pub evaluation_samples: i32,
    pub base_cost_per_1k_micro: i64,
    pub tags: Vec<String>,
}

/// 64 hexadecimal digits of either case.
pub open spec fn is_sha256_text(hash: Seq<char>) -> bool {
    hash.len() == 64 && crate::crypto::is_hex(hash)
}

pub open spec fn publish_refusal(request: PublishModelRequest) -> Option<ApiError> {
    if let Some(refused) = alias_refusal(request.name@) {
        Some(refused)
    } else if let Some(refused) = alias_refusal(request.alias@) {
        Some(refused)
    } else if let Some(refused) = tags_refusal(request.tags@) {
        Some(refused)
    } else if text::ascii_lowercase(request.format@) != "gguf"@ && text::ascii_lowercase(
        request.format@,
    ) != "safetensors"@ {
        Some(ApiError::bad_request("unsafe_model_format", "只允许 GGUF 或 safetensors 模型"))
    } else if !is_sha256_text(request.weights_hash@) {
        Some(
            ApiError::bad_request(
                "invalid_model_hash",
                "model_weights_hash 必须是 64 位 SHA-256 十六进制值",
            ),
        )
    } else if request.size_bytes <= 0 || request.context_length <= 0 {
        Some(ApiError::bad_request("invalid_model_metadata", "模型元数据超出允许范围"))
    } else if request.benchmark_normalized != 0 || request.glicko_normalized != 0
        || request.evaluation_samples != 0 {
        Some(
            ApiError::bad_request(
                "client_quality_forbidden",
                "公开发布不得自报 benchmark、Glicko 或评价样本；这些字段必须为 0",
            ),
        )
    } else if request.base_cost_per_1k_micro != V1_BASE_COST_PER_1K_MICRO {
        Some(
            ApiError::bad_request(
                "client_base_cost_forbidden",
                "base_cost_per_1k_micro 必须等于协调器 v1 唯一受控基准，发布者不能选择费率",
            ),
        )
    } else {
        None
    }
}

fn valid_weights_hash(hash: &str) -> (valid: bool)
    ensures
        valid == is_sha256_text(hash@),
{
    match crate::crypto::hex_decode(hash) {
        Some(bytes) => bytes.len() == 32,
        None => false,
    }
}

/// Checks what a node wants to publish: named and tagged within bounds, in a safe
/// format, with a hash of its weights, without a quality of its own making and at the
/// one approved price.
pub fn validate_publish(request: &PublishModelRequest) -> (valid: Result<(), ApiError>)
    ensures
        valid == error::unless(publish_refusal(*request), ()),
{
    validate_alias(request.name.as_str())?;
    validate_alias(request.alias.as_str())?;
    validate_tags(request.tags.as_slice())?;
    let format = text::to_ascii_lowercase(request.format.as_str());
    if !text::same_text(format.as_str(), "gguf") && !text::same_text(
        format.as_str(),
        "safetensors",
    ) {
        return Err(
            ApiError::bad_request("unsafe_model_format", "只允许 GGUF 或 safetensors 模型"),
        );
    }
    if !valid_weights_hash(request.weights_hash.as_str()) {
        return Err(
            ApiError::bad_request(
                "invalid_model_hash",
                "model_weights_hash 必须是 64 位 SHA-256 十六进制值",
            ),
        );
    }
    if request.size_bytes <= 0 || request.context_length <= 0 {
        return Err(ApiError::bad_request("invalid_model_metadata", "模型元数据超出允许范围"));
    }
    if request.benchmark_normalized != 0 || request.glicko_normalized != 0
        || request.evaluation_samples != 0 {
        return Err(
            ApiError::bad_request(
                "client_quality_forbidden",
                "公开发布不得自报 benchmark、Glicko 或评价样本；这些字段必须为 0",
            ),
        );
    }
    if request.base_cost_per_1k_micro != V1_BASE_COST_PER_1K_MICRO {
        return Err(
            ApiError::bad_request(
                "client_base_cost_forbidden",
                "base_cost_per_1k_micro 必须等于协调器 v1 唯一受控基准，发布者不能选择费率",
            ),
        );
    }
    Ok(())
}

/// A publisher chooses neither the price nor the quality of a model.
pub proof fn publishers_choose_neither_price_nor_quality(request: PublishModelRequest)
    requires
        publish_refusal(request) is None,
    ensures
        request.base_cost_per_1k_micro == V1_BASE_COST_PER_1K_MICRO,
        request.benchmark_normalized == 0 && request.glicko_normalized == 0
            && request.evaluation_samples == 0,
{
}

/// Checks what became of a published model: it is stored at the approved price, and
/// its alias is bound to it and to no other model.
pub fn check_published(stored_base_cost: i64, stored_instance_id: Option<Uuid>) -> (published: Result<
    Uuid,
    ApiError,
>)
    ensures
        published == if stored_base_cost != V1_BASE_COST_PER_1K_MICRO {
            Err::<Uuid, ApiError>(ApiError::internal())
        } else {
            match stored_instance_id {
                Some(id) => Ok::<Uuid, ApiError>(id),
                None => Err::<Uuid, ApiError>(
                    ApiError::conflict("model_alias_exists", "此节点的模型别名已经绑定到另一模型"),
                ),
            }
        },
{
    if stored_base_cost != V1_BASE_COST_PER_1K_MICRO {
        return Err(ApiError::internal());
    }
    match stored_instance_id {
        Some(id) => Ok(id),
        None => Err(
            ApiError::conflict("model_alias_exists", "此节点的模型别名已经绑定到另一模型"),
        ),
    }
}

/// An instance that still has work drains before it is unpublished.
pub fn unpublished_status(active_jobs: i64) -> (status: &'static str)
    ensures
        status@ == if active_jobs == 0 {
            "unpublished"@
        } else {
            "draining"@
        },
{
    if active_jobs == 0 {
        "unpublished"
    } else {
        "draining"
    }
}

/// Which models are listed.
pub struct ModelListQuery {
    pub name: Option<String>,
    pub limit: Option<i64>,
}

impl ModelListQuery {
    /// How many models are listed: a hundred unless asked otherwise, at least one and
    /// at most two hundred.
    pub fn page_size(&self) -> (size: i64)
        ensures
            size == match self.limit {
                None => 100,
                Some(limit) => if limit < 1 {
                    1
                } else if limit > 200 {
                    200
                } else {
                    limit
                },
            },
    {
        match self.limit {
            None => 100,
            Some(limit) => if limit < 1 {
                1
            } else if limit > 200 {
                200
            } else {
                limit
            },
        }
    }
}

/// Names in their order, each once.
pub open spec fn is_listing(listing: Seq<String>) -> bool {
    forall|i: int, j: int|
        0 <= i < j < listing.len() ==> text::precedes(
            (#[trigger] listing[i])@,
            (#[trigger] listing[j])@,
        )
}

/// A name stands in a list.
pub open spec fn names(list: Seq<String>, name: Seq<char>) -> bool {
    exists|i: int| 0 <= i < list.len() && (#[trigger] list[i])@ == name
}

/// Enters a name into a listing, unless it stands there.
fn enter_name(listing: &mut Vec<String>, name: &str)
    requires
        is_listing(old(listing)@),
    ensures
        is_listing(final(listing)@),
        forall|other: Seq<char>|
            #[trigger] names(final(listing)@, other) <==> names(old(listing)@, other) || other
                == name@,
{
    let ghost before = listing@;
    let mut at: usize = 0;
    while at < listing.len() && text::comes_before(listing[at].as_str(), name)
        invariant
            listing@ == before,
            at <= listing@.len(),
            forall|i: int|
                0 <= i < at ==> text::precedes((#[trigger] listing@[i])@, name@),
        decreases listing@.len() - at,
    {
        at += 1;
    }
    if at < listing.len() && text::same_text(listing[at].as_str(), name) {
        assert(names(before, name@));
        return;
    }
    proof {
        if at < before.len() {
            text::texts_are_ordered(before[at as int]@, name@);
        }
        assert forall|j: int| at <= j < before.len() implies text::precedes(
            name@,
            (#[trigger] before[j])@,
        ) by {
            if j > at {
                text::order_is_transitive(name@, before[at as int]@, before[j]@);
            }
        }
    }
    listing.insert(at, name.to_owned());
    proof {
        let after = listing@;
        assert forall|i: int| 0 <= i < after.len() implies (#[trigger] after[i])@ == if i < at {
            before[i]@
        } else if i == at {
            name@
        } else {
            before[i - 1]@
        } by {}
        assert forall|other: Seq<char>| #[trigger] names(after, other) <==> names(before, other)
            || other == name@ by {
            if names(before, other) {
                let i = choose|i: int| 0 <= i < before.len() && (#[trigger] before[i])@ == other;
                if i < at {
                    assert(after[i]@ == other);
                } else {
                    assert(after[i + 1]@ == other);
                }
            }
            if other == name@ {
                assert(after[at as int]@ == other);
            }
            if names(after, other) {
                let i = choose|i: int| 0 <= i < after.len() && (#[trigger] after[i])@ == other;
                if i < at {
                    assert(before[i]@ == other);
                } else if i > at {
                    assert(before[i - 1]@ == other);
                }
            }
        }
    }
}

/// The names of the models that are listed, in their order and each once.
pub fn listed_names(all: &Vec<String>) -> (listing: Vec<String>)
    ensures
        is_listing(listing@),
        forall|name: Seq<char>| #[trigger] names(listing@, name) <==> names(all@, name),
{
    let mut listing: Vec<String> = Vec::new();
    let mut i: usize = 0;
    while i < all.len()
        invariant
            i <= all@.len(),
            is_listing(listing@),
            forall|name: Seq<char>| #[trigger]
                names(listing@, name) <==> names(all@.take(i as int), name),
        decreases all@.len() - i,
    {
        enter_name(&mut listing, all[i].as_str());
        proof {
            let before = all@.take(i as int);
            let after = all@.take(i + 1);
            assert forall|name: Seq<char>| names(after, name) <==> names(before, name) || name
                == all@[i as int]@ by {
                if names(before, name) {
                    let j = choose|j: int| 0 <= j < before.len() && (#[trigger] before[j])@ == name;
                    assert(after[j]@ == name);
                }
                if name == all@[i as int]@ {
                    assert(after[i as int]@ == name);
                }
                if names(after, name) {
                    let j = choose|j: int| 0 <= j < after.len() && (#[trigger] after[j])@ == name;
                    if j < i {
                        assert(before[j]@ == name);
                    }
                }
            }
        }
        i += 1;
    }
    assert(all@.take(all@.len() as int) =~= all@);
    listing
}

/// A model is offered in three speeds: under its own name, and under two names that
/// are made from it.
pub fn speed_variants(name: &str) -> (variants: (String, String, String))
    ensures
        variants.0@ == name@ + "-fast"@,
        variants.1@ == name@,
        variants.2@ == name@ + "-slow"@,
{
    let mut fast = name.to_owned();
    text::push_text(&mut fast, "-fast");
    let mut slow = name.to_owned();
    text::push_text(&mut slow, "-slow");
    (fast, name.to_owned(), slow)
}

pub open spec fn policy_values(max_concurrent: u32, gpu_temp_limit_c: Option<u16>, vram: u64) -> Result<
    NodeLimits,
    ApiError,
> {
    if max_concurrent > i32::MAX {
        Err(ApiError::bad_request("invalid_node_policy", "节点并发超出数据库范围"))
    } else if vram > i64::MAX {
        Err(ApiError::bad_request("invalid_node_policy", "显存保留阈值超出数据库范围"))
    } else {
        Ok(
            NodeLimits {
                max_concurrent: max_concurrent as i32,
                gpu_temp_limit_c: match gpu_temp_limit_c {
                    Some(limit) => Some(limit as i32),
                    None => None,
                },
                vram_reserve_mib: vram as i64,
            },
        )
    }
}

/// The limits of a node as the database holds them.
pub fn sql_policy_values(
    max_concurrent: u32,
    gpu_temp_limit_c: Option<u16>,
    vram_reserve_mib: u64,
) -> (values: Result<NodeLimits, ApiError>)
    ensures
        values == policy_values(max_concurrent, gpu_temp_limit_c, vram_reserve_mib),
{
    if max_concurrent > i32::MAX as u32 {
        return Err(ApiError::bad_request("invalid_node_policy", "节点并发超出数据库范围"));
    }
    if vram_reserve_mib > i64::MAX as u64 {
        return Err(ApiError::bad_request("invalid_node_policy", "显存保留阈值超出数据库范围"));
    }
    Ok(
        NodeLimits {
            max_concurrent: max_concurrent as i32,
            gpu_temp_limit_c: match gpu_temp_limit_c {
                Some(limit) => Some(limit as i32),
                None => None,
            },
            vram_reserve_mib: vram_reserve_mib as i64,
        },
    )
}

/// Checks the outcome of registering a node: `None` stands for an alias that is bound
/// to another device.
pub fn check_registration(stored_trust: &Option<String>) -> (registered: Result<
    TrustLevel,
    ApiError,
>)
    ensures
        match *stored_trust {
            None => registered == Err::<TrustLevel, ApiError>(
                ApiError::conflict(
                    "node_device_binding_mismatch",
                    "节点已经绑定到另一设备，不能更换设备密钥",
                ),
            ),
            Some(stored) => match registered {
                Ok(trust) => trust.name() == stored@,
                Err(refused) => refused == ApiError::internal() && forall|trust: TrustLevel|
                    #[trigger] trust.name() != stored@,
            },
        },
{
    match stored_trust {
        None => Err(
            ApiError::conflict(
                "node_device_binding_mismatch",
                "节点已经绑定到另一设备，不能更换设备密钥",
            ),
        ),
        Some(stored) => parse_db_trust_level(stored.as_str()),
    }
}

/// Only its owner sees the statistics of a node.
pub fn authorize_node_stats(owner: Uuid, viewer: Uuid) -> (authorized: Result<(), ApiError>)
    ensures
        authorized == if owner == viewer {
            Ok::<(), ApiError>(())
        } else {
            Err::<(), ApiError>(ApiError::forbidden("无权查看此节点"))
        },
{
    if owner != viewer {
        return Err(ApiError::forbidden("无权查看此节点"));
    }
    Ok(())
}

/// The JSON object that the deterministic test profile of a model is known by.
pub open spec fn test_profile_json(model_id: Uuid) -> Seq<char> {
    "{\"schema_version\":1,\"contract_version\":\"server_reference_upper_bound_v1\",\"model_id\":\""@
        + model_id.hyphenated()
        + "\",\"profile_version\":1,\"reference_hardware_class\":\"test-only-reference-v1\",\"maximum_input_tokens\":1000000,\"maximum_output_tokens\":1000000,\"fixed_gpu_time_us\":0,\"gpu_time_us_per_1k_tokens\":1000,\"reference_vram_mib\":1024,\"token_rate_micro_per_1k\":1000,\"gpu_rate_micro_per_second\":1000,\"vram_rate_micro_per_gib_second\":1000,\"evidence_sha256\":\"7e7e7e7e7e7e7e7e7e7e7e7e7e7e7e7e7e7e7e7e7e7e7e7e7e7e7e7e7e7e7e7e\",\"valid_from_unix_us\":1577836800000000,\"valid_until_unix_us\":4102444800000000,\"operator_id\":\"mindone-test-fixture\",\"reason\":\"RuntimeEnvironment::Test 的确定性物理计费夹具\",\"idempotency_key\":\"test-billing-profile-v1:"@
        + model_id.hyphenated() + "\"}"@
}

/// The fingerprint of the deterministic test profile of a model.
pub fn test_profile_fingerprint(model_id: Uuid) -> (fingerprint: String)
    ensures
        fingerprint@ == billing::sha256_text(test_profile_json(model_id)),
        text::is_lower_hex(fingerprint@, 64),
{
    let id = model_id.text();
    let mut json = String::new();
    text::push_text(
        &mut json,
        "{\"schema_version\":1,\"contract_version\":\"server_reference_upper_bound_v1\",\"model_id\":\"",
    );
    text::push_text(&mut json, id.as_str());
    text::push_text(
        &mut json,
        "\",\"profile_version\":1,\"reference_hardware_class\":\"test-only-reference-v1\",\"maximum_input_tokens\":1000000,\"maximum_output_tokens\":1000000,\"fixed_gpu_time_us\":0,\"gpu_time_us_per_1k_tokens\":1000,\"reference_vram_mib\":1024,\"token_rate_micro_per_1k\":1000,\"gpu_rate_micro_per_second\":1000,\"vram_rate_micro_per_gib_second\":1000,\"evidence_sha256\":\"7e7e7e7e7e7e7e7e7e7e7e7e7e7e7e7e7e7e7e7e7e7e7e7e7e7e7e7e7e7e7e7e\",\"valid_from_unix_us\":1577836800000000,\"valid_until_unix_us\":4102444800000000,\"operator_id\":\"mindone-test-fixture\",\"reason\":\"RuntimeEnvironment::Test 的确定性物理计费夹具\",\"idempotency_key\":\"test-billing-profile-v1:",
    );
    text::push_text(&mut json, id.as_str());
    text::push_text(&mut json, "\"}");
    assert(json@ =~= test_profile_json(model_id));
    billing::sha256_hex(json.as_str())
}

/// The stored test profile must be the one of the model.
pub fn check_test_profile(stored_profile_id: Uuid, model_id: Uuid) -> (checked: Result<(), ApiError>)
    ensures
        checked == if stored_profile_id == model_id {
            Ok::<(), ApiError>(())
        } else {
            Err::<(), ApiError>(ApiError::internal())
        },
{
    if stored_profile_id != model_id {
        return Err(ApiError::internal());
    }
    Ok(())
}

/// The names of the levels of trust.
pub proof fn trust_levels_have_their_names()
    ensures
        TrustLevel::Enhanced.name() == "enhanced"@,
        TrustLevel::Standard.name() == "standard"@,
        TrustLevel::StandardLimited.name() == "standard-limited"@,
        TrustLevel::Experimental.name() == "experimental"@,
        TrustLevel::Unverified.name() == "unverified"@,
{
}

/// What software earns: full Standard trust only on Linux, with namespaces, a system call filter
/// and a file system filter; less without the last, or on macOS with a sandbox; Windows with one
/// is on trial; and whatever confines nothing is not verified.
pub proof fn trust_is_earned_by_confinement(profile: HardwareProfile, system: Seq<char>)
    requires
        system == text::ascii_lowercase(text::trimmed(profile.operating_system@)),
    ensures
        software_trust(profile) == TrustLevel::Standard <==> system == "linux"@
            && profile.sandbox_mechanisms@.contains(SandboxMechanism::Namespaces)
            && profile.sandbox_mechanisms@.contains(SandboxMechanism::SeccompBpf)
            && profile.sandbox_mechanisms@.contains(SandboxMechanism::Landlock),
        software_trust(profile) == TrustLevel::StandardLimited <==> (system == "linux"@
            && profile.sandbox_mechanisms@.contains(SandboxMechanism::Namespaces)
            && profile.sandbox_mechanisms@.contains(SandboxMechanism::SeccompBpf)
            && !profile.sandbox_mechanisms@.contains(SandboxMechanism::Landlock)) || (system
            == "macos"@ && (profile.sandbox_mechanisms@.contains(SandboxMechanism::Seatbelt)
            || profile.sandbox_mechanisms@.contains(SandboxMechanism::AppSandbox))),
        software_trust(profile) == TrustLevel::Experimental <==> system == "windows"@ && (
        profile.sandbox_mechanisms@.contains(SandboxMechanism::JobObjects)
            || profile.sandbox_mechanisms@.contains(SandboxMechanism::AppContainer)
            || profile.sandbox_mechanisms@.contains(SandboxMechanism::HyperV)),
{
    reveal_strlit("linux");
    reveal_strlit("macos");
    reveal_strlit("windows");
    assert("linux"@[0] == 'l' && "macos"@[0] == 'm' && "windows"@[0] == 'w');
}

/// A node without a limit is never too hot; one with a limit is at it and above it, and where its
/// temperature is unknown; and one that paused stays so until it is five degrees below.
pub proof fn nodes_cool_down_before_they_resume(limit: i32, temperature: i32, was_paused: bool)
    requires
        i32::MIN + 5 <= limit,
    ensures
        !too_hot(None, Some(temperature), was_paused) && !too_hot(None, None, was_paused),
        too_hot(Some(limit), None, was_paused),
        too_hot(Some(limit), Some(temperature), false) <==> temperature >= limit,
        too_hot(Some(limit), Some(temperature), true) <==> temperature > limit - 5,
{
}

/// A node pauses exactly if it is full, has too little memory left or is too hot, and tells the
/// first of these; a node that is to stop stops, paused or not, and any other goes on.
pub proof fn nodes_pause_at_their_limits(
    beat: Heartbeat,
    limits: NodeLimits,
    was_temperature_paused: bool,
    used: i64,
    total: i64,
)
    requires
        beat.vram_used_mib == Some(used),
        beat.vram_total_mib == Some(total),
        0 <= used,
        0 <= total,
    ensures
        heartbeat_pause(beat, limits, was_temperature_paused) == if beat.current_concurrent
            >= limits.max_concurrent {
            Some(PauseReason::MaxConcurrent)
        } else if total - used < limits.vram_reserve_mib {
            Some(PauseReason::VramReserve)
        } else if too_hot(limits.gpu_temp_limit_c, beat.gpu_temp_c, was_temperature_paused) {
            Some(PauseReason::GpuTemperatureLimit)
        } else {
            None
        },
{
}

/// Memory that a node does not report does not pause it.
pub proof fn unknown_memory_does_not_pause(
    beat: Heartbeat,
    limits: NodeLimits,
    was_temperature_paused: bool,
)
    requires
        beat.vram_used_mib is None || beat.vram_total_mib is None,
        beat.current_concurrent < limits.max_concurrent,
    ensures
        heartbeat_pause(beat, limits, was_temperature_paused) is Some <==> too_hot(
            limits.gpu_temp_limit_c,
            beat.gpu_temp_c,
            was_temperature_paused,
        ),
{
}

/// What a node does follows from whether it is to stop and whether it pauses.
pub proof fn activity_follows_from_the_pause(beat: Heartbeat, pause: Option<PauseReason>)
    ensures
        heartbeat_activity(beat, pause) == NodeActivity::Draining <==> beat.draining,
        heartbeat_activity(beat, pause) == NodeActivity::Paused <==> !beat.draining && pause
            is Some,
        heartbeat_activity(beat, pause) == NodeActivity::Online <==> !beat.draining && pause
            is None,
{
}

/// A name has 1 to 64 characters, white space around it aside.
pub proof fn names_have_their_length(alias: Seq<char>)
    ensures
        alias_refusal(alias) is None <==> 0 < text::trimmed(alias).len() && text::trimmed(
            alias,
        ).len() < 65,
{
}

/// At most 32 tags are taken, each of 1 to 64 ASCII characters.
pub proof fn tags_are_few_and_short(tags: Seq<String>)
    ensures
        tags_refusal(tags) is None <==> tags.len() <= 32 && forall|i: int|
            0 <= i < tags.len() ==> 1 <= (#[trigger] tags[i])@.len() <= 64
                && vstd::utf8::is_ascii_chars(tags[i]@),
{
}

/// A model is published exactly if its names and its tags are in order, it is in one of the two
/// formats that run nothing, its hash is one, its size and its context are positive, and it claims
/// neither a quality nor a price of its own.
pub proof fn publications_are_checked_in_full(request: PublishModelRequest)
    ensures
        publish_refusal(request) is None <==> {
            &&& alias_refusal(request.name@) is None
            &&& alias_refusal(request.alias@) is None
            &&& tags_refusal(request.tags@) is None
            &&& text::ascii_lowercase(request.format@) == "gguf"@ || text::ascii_lowercase(
                request.format@,
            ) == "safetensors"@
            &&& request.weights_hash@.len() == 64
            &&& crate::crypto::is_hex(request.weights_hash@)
            &&& request.size_bytes > 0
            &&& request.context_length > 0
            &&& request.benchmark_normalized == 0
            &&& request.glicko_normalized == 0
            &&& request.evaluation_samples == 0
            &&& request.base_cost_per_1k_micro == 1_000_000
        },
{
}

/// The limits of a policy are stored as they are, or not at all.
pub proof fn policies_are_stored_as_they_are(
    max_concurrent: u32,
    gpu_temp_limit_c: Option<u16>,
    vram: u64,
)
    ensures
        policy_values(max_concurrent, gpu_temp_limit_c, vram) is Ok <==> max_concurrent
            <= 0x7fff_ffff && vram <= 0x7fff_ffff_ffff_ffff,
        policy_values(max_concurrent, gpu_temp_limit_c, vram) matches Ok(limits) ==> {
            &&& limits.max_concurrent == max_concurrent
            &&& limits.vram_reserve_mib == vram
            &&& limits.gpu_temp_limit_c is Some <==> gpu_temp_limit_c is Some
            &&& gpu_temp_limit_c is Some ==> limits.gpu_temp_limit_c->0 == gpu_temp_limit_c->0
        },
{
}

/// A listing names each text once, in order.
pub proof fn listings_are_in_order(listing: Seq<String>, i: int, j: int)
    requires
        is_listing(listing),
        0 <= i < j < listing.len(),
    ensures
        text::precedes(listing[i]@, listing[j]@),
        listing[i]@ != listing[j]@,
{
    text::texts_are_ordered(listing[i]@, listing[j]@);
}

/// A publication is refused for what is wrong with it first.
pub proof fn publications_are_refused_for_a_reason(request: PublishModelRequest)
    requires
        alias_refusal(request.name@) is None,
        alias_refusal(request.alias@) is None,
        tags_refusal(request.tags@) is None,
    ensures
        ({
            let refusal = publish_refusal(request);
            let format = text::ascii_lowercase(request.format@);
            let safe = format == "gguf"@ || format == "safetensors"@;
            let hashed = request.weights_hash@.len() == 64 && crate::crypto::is_hex(
                request.weights_hash@,
            );
            let sized = request.size_bytes > 0 && request.context_length > 0;
            let humble = request.benchmark_normalized == 0 && request.glicko_normalized == 0
                && request.evaluation_samples == 0;
            &&& !safe ==> (refusal matches Some(ApiError::BadRequest { code, .. }) && code
                == "unsafe_model_format")
            &&& safe && !hashed ==> (refusal matches Some(ApiError::BadRequest { code, .. })
                && code == "invalid_model_hash")
            &&& safe && hashed && !sized ==> (refusal matches Some(
                ApiError::BadRequest { code, .. },
            ) && code == "invalid_model_metadata")
            &&& safe && hashed && sized && !humble ==> (refusal matches Some(
                ApiError::BadRequest { code, .. },
            ) && code == "client_quality_forbidden")
            &&& safe && hashed && sized && humble && request.base_cost_per_1k_micro != 1_000_000
                ==> (refusal matches Some(ApiError::BadRequest { code, .. }) && code
                == "client_base_cost_forbidden")
        }),
{
}

} // verus!
