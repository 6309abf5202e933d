//! Collection event types.
//!
//! The unified event model covers process, network, filesystem and performance
//! monitoring, plus trigger requests for coordinated analysis. Times are Unix
//! seconds; floating-point measurements travel as their IEEE-754 bit patterns.

use crate::strmap::StrMap;
use crate::text::str_eq;
use vstd::prelude::*;

verus! {

/// Types of analysis that can be triggered.
#[derive(Debug, Clone, PartialEq, Eq, Hash)]
pub enum AnalysisType {
    /// Binary hash computation and integrity verification
    BinaryHash,
    /// Memory analysis and process inspection
    MemoryAnalysis,
    /// YARA rule scanning
    YaraScan,
    /// Network traffic analysis
    NetworkAnalysis,
    /// Behavioral analysis and anomaly detection
    BehavioralAnalysis,
    /// Custom analysis type (extensible)
    Custom(String),
}

/// A canonical key for an analysis type: its variant number and, for custom ones, the text.
pub open spec fn analysis_key(a: AnalysisType) -> (nat, Seq<char>) {
    match a {
        AnalysisType::BinaryHash => (0, Seq::empty()),
        AnalysisType::MemoryAnalysis => (1, Seq::empty()),
        AnalysisType::YaraScan => (2, Seq::empty()),
        AnalysisType::NetworkAnalysis => (3, Seq::empty()),
        AnalysisType::BehavioralAnalysis => (4, Seq::empty()),
        AnalysisType::Custom(s) => (5, s@),
    }
}

/// The view of an optional string.
pub open spec fn opt_view(o: Option<String>) -> Option<Seq<char>> {
    match o {
        Some(s) => Some(s@),
        None => None,
    }
}

/// Two analysis types name the same analysis exactly when their keys agree.
pub proof fn lemma_same_analysis_key(a: AnalysisType, b: AnalysisType)
    ensures
        same_analysis(a, b) <==> analysis_key(a) == analysis_key(b),
{
}

/// Two analysis types name the same analysis (custom ones by their text).
pub open spec fn same_analysis(a: AnalysisType, b: AnalysisType) -> bool {
    match (a, b) {
        (AnalysisType::Custom(x), AnalysisType::Custom(y)) => x@ == y@,
        (AnalysisType::Custom(_), _) => false,
        (_, AnalysisType::Custom(_)) => false,
        _ => a == b,
    }
}

impl AnalysisType {
    /// Whether `self` and `other` name the same analysis.
    pub fn same_as(&self, other: &AnalysisType) -> (r: bool)
        ensures
            r == same_analysis(*self, *other),
    {
        match (self, other) {
            (AnalysisType::Custom(x), AnalysisType::Custom(y)) => str_eq(x.as_str(), y.as_str()),
            (AnalysisType::BinaryHash, AnalysisType::BinaryHash) => true,
            (AnalysisType::MemoryAnalysis, AnalysisType::MemoryAnalysis) => true,
            (AnalysisType::YaraScan, AnalysisType::YaraScan) => true,
            (AnalysisType::NetworkAnalysis, AnalysisType::NetworkAnalysis) => true,
            (AnalysisType::BehavioralAnalysis, AnalysisType::BehavioralAnalysis) => true,
            _ => false,
        }
    }

    /// A copy of this analysis type.
    pub fn duplicate(&self) -> (r: AnalysisType)
        ensures
            r == *self,
    {
        match self {
            AnalysisType::Custom(x) => AnalysisType::Custom(x.clone()),
            AnalysisType::BinaryHash => AnalysisType::BinaryHash,
            AnalysisType::MemoryAnalysis => AnalysisType::MemoryAnalysis,
            AnalysisType::YaraScan => AnalysisType::YaraScan,
            AnalysisType::NetworkAnalysis => AnalysisType::NetworkAnalysis,
            AnalysisType::BehavioralAnalysis => AnalysisType::BehavioralAnalysis,
        }
    }
}

/// Whether `list` holds an analysis type naming the same analysis as `a`.
pub open spec fn analysis_listed(list: Seq<AnalysisType>, a: AnalysisType) -> bool {
    exists|i: int| 0 <= i < list.len() && same_analysis(#[trigger] list[i], a)
}

/// Whether `list` holds an analysis type naming the same analysis as `a`.
pub fn analysis_in(list: &Vec<AnalysisType>, a: &AnalysisType) -> (r: bool)
    ensures
        r == analysis_listed(list@, *a),
{
    let mut i: usize = 0;
    while i < list.len()
        invariant
            i <= list@.len(),
            forall|j: int| 0 <= j < i ==> !same_analysis(#[trigger] list@[j], *a),
        decreases list@.len() - i,
    {
        if list[i].same_as(a) {
            return true;
        }
        i = i + 1;
    }
    false
}

/// Priority levels for trigger requests, from least to most urgent.
#[derive(Debug, Clone, Copy, PartialEq, Eq, PartialOrd, Ord, Hash, Structural)]
pub enum TriggerPriority {
    /// Low priority - routine analysis
    Low,
    /// Normal priority - standard analysis
    Normal,
    /// High priority - suspicious activity detected
    High,
    /// Critical priority - immediate threat response required
    Critical,
}

/// The urgency rank of a priority (higher is more urgent).
pub open spec fn priority_rank(p: TriggerPriority) -> nat {
    match p {
        TriggerPriority::Low => 0,
        TriggerPriority::Normal => 1,
        TriggerPriority::High => 2,
        TriggerPriority::Critical => 3,
    }
}

impl TriggerPriority {
    /// The urgency rank (higher is more urgent).
    pub fn rank(&self) -> (r: u8)
        ensures
            r == priority_rank(*self),
    {
        match self {
            TriggerPriority::Low => 0,
            TriggerPriority::Normal => 1,
            TriggerPriority::High => 2,
            TriggerPriority::Critical => 3,
        }
    }
}

/// Whether `list` holds priority `p`.
pub fn priority_in(list: &Vec<TriggerPriority>, p: TriggerPriority) -> (r: bool)
    ensures
        r == list@.contains(p),
{
    let mut i: usize = 0;
    while i < list.len()
        invariant
            i <= list@.len(),
            forall|j: int| 0 <= j < i ==> list@[j] != p,
        decreases list@.len() - i,
    {
        if list[i] == p {
            assert(list@[i as int] == p);
            return true;
        }
        i = i + 1;
    }
    false
}

/// Analysis collector trigger request for coordinated analysis.
#[derive(Debug)]
pub struct TriggerRequest {
    /// Unique identifier for this trigger request
    pub trigger_id: String,
    /// Target analysis collector name
    pub target_collector: String,
    /// Type of analysis to perform
    pub analysis_type: AnalysisType,
    /// Priority level for this analysis request
    pub priority: TriggerPriority,
    /// Process ID to analyze (if applicable)
    pub target_pid: Option<u32>,
    /// File path to analyze (if applicable)
    pub target_path: Option<String>,
    /// Correlation ID for tracking related events
    pub correlation_id: String,
    /// Additional metadata for the analysis request
    pub metadata: StrMap<String>,
    /// Trigger generation timestamp (Unix seconds)
    pub timestamp: u64,
}

/// Most metadata entries a trigger request may carry.
pub const MAX_TRIGGER_METADATA_ENTRIES: usize = 100;

/// Why a trigger request is malformed.
#[derive(Debug, Clone, PartialEq, Eq)]
pub enum TriggerRequestError {
    /// `trigger_id` is empty
    EmptyTriggerId,
    /// `correlation_id` is empty
    EmptyCorrelationId,
    /// `target_collector` is empty
    EmptyTargetCollector,
    /// neither `target_pid` nor `target_path` is present
    MissingTarget,
    /// more metadata entries than allowed (the count found)
    TooMuchMetadata { found: usize },
}

impl TriggerRequestError {
    /// A human-readable description.
    pub fn to_string(&self) -> (s: String)
        ensures
            self is EmptyTriggerId ==> s@ == "trigger_id must be non-empty"@,
            self is EmptyCorrelationId ==> s@ == "correlation_id must be non-empty"@,
            self is EmptyTargetCollector ==> s@ == "target_collector must be non-empty"@,
            self is MissingTarget ==> s@ == "at least one of target_pid or target_path must be present"@,
            self matches TriggerRequestError::TooMuchMetadata { found } ==> s@
                == "metadata exceeds maximum size of 100 entries (found "@ + crate::support::decimal(*found as nat) + ")"@,
    {
        match self {
            TriggerRequestError::EmptyTriggerId => String::from_str("trigger_id must be non-empty"),
            TriggerRequestError::EmptyCorrelationId => String::from_str(
                "correlation_id must be non-empty",
            ),
            TriggerRequestError::EmptyTargetCollector => String::from_str(
                "target_collector must be non-empty",
            ),
            TriggerRequestError::MissingTarget => String::from_str(
                "at least one of target_pid or target_path must be present",
            ),
            TriggerRequestError::TooMuchMetadata { found } => String::from_str(
                "metadata exceeds maximum size of 100 entries (found ",
            ).concat(crate::support::decimal_string(*found as u64).as_str()).concat(")"),
        }
    }
}

/// The outcome of validating a trigger request, checked in this order.
pub open spec fn trigger_request_check(t: TriggerRequest) -> Result<(), TriggerRequestError> {
    if t.trigger_id@.len() == 0 {
        Err(TriggerRequestError::EmptyTriggerId)
    } else if t.correlation_id@.len() == 0 {
        Err(TriggerRequestError::EmptyCorrelationId)
    } else if t.target_collector@.len() == 0 {
        Err(TriggerRequestError::EmptyTargetCollector)
    } else if t.target_pid is None && t.target_path is None {
        Err(TriggerRequestError::MissingTarget)
    } else if t.metadata.keys().len() > MAX_TRIGGER_METADATA_ENTRIES {
        Err(TriggerRequestError::TooMuchMetadata { found: t.metadata.keys().len() as usize })
    } else {
        Ok(())
    }
}

/// Whether `b` is a copy of `a`: every field the same, the metadata with the same entries
/// in the same order.
pub open spec fn same_request(a: TriggerRequest, b: TriggerRequest) -> bool {
    &&& a.trigger_id == b.trigger_id
    &&& a.target_collector == b.target_collector
    &&& a.analysis_type == b.analysis_type
    &&& a.priority == b.priority
    &&& a.target_pid == b.target_pid
    &&& a.target_path == b.target_path
    &&& a.correlation_id == b.correlation_id
    &&& a.metadata@ == b.metadata@
    &&& a.metadata.keys() == b.metadata.keys()
    &&& a.timestamp == b.timestamp
}

impl TriggerRequest {
    /// A copy of this request.
    pub fn duplicate(&self) -> (r: TriggerRequest)
        ensures
            same_request(r, *self),
    {
        TriggerRequest {
            trigger_id: self.trigger_id.clone(),
            target_collector: self.target_collector.clone(),
            analysis_type: self.analysis_type.duplicate(),
            priority: self.priority,
            target_pid: self.target_pid,
            target_path: match &self.target_path {
                Some(p) => Some(p.clone()),
                None => None,
            },
            correlation_id: self.correlation_id.clone(),
            metadata: self.metadata.duplicate(),
            timestamp: self.timestamp,
        }
    }

    /// Validates the trigger request: ids and target collector non-empty, a pid or a path
    /// present, and at most 100 metadata entries.
    pub fn validate(&self) -> (r: Result<(), TriggerRequestError>)
        ensures
            r == trigger_request_check(*self),
    {
        if self.trigger_id.as_str().is_empty() {
            return Err(TriggerRequestError::EmptyTriggerId);
        }
        if self.correlation_id.as_str().is_empty() {
            return Err(TriggerRequestError::EmptyCorrelationId);
        }
        if self.target_collector.as_str().is_empty() {
            return Err(TriggerRequestError::EmptyTargetCollector);
        }
        if self.target_pid.is_none() && self.target_path.is_none() {
            return Err(TriggerRequestError::MissingTarget);
        }
        let n = self.metadata.len();
        if n > MAX_TRIGGER_METADATA_ENTRIES {
            return Err(TriggerRequestError::TooMuchMetadata { found: n });
        }
        Ok(())
    }
}

/// Process monitoring event data.
#[derive(Debug)]
pub struct ProcessEvent {
    /// Process identifier
    pub pid: u32,
    /// Parent process identifier
    pub ppid: Option<u32>,
    /// Process name
    pub name: String,
    /// Full executable path
    pub executable_path: Option<String>,
    /// Command line arguments
    pub command_line: Vec<String>,
    /// Process start time (Unix seconds)
    pub start_time: Option<u64>,
    /// CPU usage percentage, as the bit pattern of an `f64`
    pub cpu_usage_bits: Option<u64>,
    /// Memory usage in bytes
    pub memory_usage: Option<u64>,
    /// Hex-encoded hash of the executable file
    pub executable_hash: Option<String>,
    /// Name of the algorithm that produced `executable_hash`
    pub hash_algorithm: Option<String>,
    /// User ID running the process
    pub user_id: Option<String>,
    /// Whether process metadata was accessible
    pub accessible: bool,
    /// Whether executable file exists
    pub file_exists: bool,
    /// Event collection timestamp (Unix seconds)
    pub timestamp: u64,
    /// Platform-specific metadata as a flat object
    pub platform_metadata: Option<StrMap<MetaValue>>,
}

/// A value in a process event's platform metadata object.
#[derive(Debug)]
pub enum MetaValue {
    /// A string value
    Str(String),
    /// A boolean value
    Bool(bool),
    /// Any other JSON value, as its JSON text
    Other(String),
}

impl MetaValue {
    /// A copy of this value.
    pub fn duplicate(&self) -> (r: MetaValue)
        ensures
            r == *self,
    {
        match self {
            MetaValue::Str(s) => MetaValue::Str(s.clone()),
            MetaValue::Bool(b) => MetaValue::Bool(*b),
            MetaValue::Other(s) => MetaValue::Other(s.clone()),
        }
    }
}

/// Why a process event violates the paired hash invariant.
#[derive(Debug, Clone, PartialEq, Eq)]
pub enum HashTupleError {
    /// `executable_hash` and `hash_algorithm` are not both present or both absent
    Mismatch,
}

impl ProcessEvent {
    /// Validates the `(executable_hash, hash_algorithm)` paired invariant: both present or
    /// both absent.
    pub fn validate_hash_tuple(&self) -> (r: Result<(), HashTupleError>)
        ensures
            r is Ok <==> (self.executable_hash is Some) == (self.hash_algorithm is Some),
    {
        if self.executable_hash.is_some() != self.hash_algorithm.is_some() {
            return Err(HashTupleError::Mismatch);
        }
        Ok(())
    }
}

/// Reserved metadata key of the ssdeep fuzzy hash.
pub open spec fn ssdeep_hash_key() -> Seq<char> {
    "integrity.ssdeep_hash"@
}

/// Reserved metadata key of the on-disk-vs-running mismatch flag.
pub open spec fn on_disk_mismatch_key() -> Seq<char> {
    "integrity.on_disk_mismatch"@
}

/// Reserved metadata key of the degraded-coverage flag.
pub open spec fn ssdeep_degraded_key() -> Seq<char> {
    "integrity.ssdeep_degraded"@
}

/// The three reserved integrity keys are distinct.
pub proof fn lemma_integrity_keys_distinct()
    ensures
        ssdeep_hash_key() != on_disk_mismatch_key(),
        ssdeep_hash_key() != ssdeep_degraded_key(),
        on_disk_mismatch_key() != ssdeep_degraded_key(),
{
    reveal_strlit("integrity.ssdeep_hash");
    reveal_strlit("integrity.on_disk_mismatch");
    reveal_strlit("integrity.ssdeep_degraded");
    assert(ssdeep_hash_key()[10] != on_disk_mismatch_key()[10]);
    assert(ssdeep_hash_key().len() != ssdeep_degraded_key().len());
    assert(on_disk_mismatch_key()[10] != ssdeep_degraded_key()[10]);
}

/// The metadata object of an event, as a map (`None` when there is none).
pub open spec fn meta_view(m: Option<StrMap<MetaValue>>) -> Option<Map<Seq<char>, MetaValue>> {
    match m {
        Some(x) => Some(x@),
        None => None,
    }
}

/// The views of the first `n` of `keys`.
pub open spec fn key_set(keys: Seq<&str>, n: int) -> Set<Seq<char>>
    decreases n,
{
    if n <= 0 {
        Set::empty()
    } else {
        key_set(keys, n - 1).insert(keys[n - 1]@)
    }
}

/// The metadata that removing `keys` from `m` leaves: none when there was none or when
/// nothing is left.
pub open spec fn cleared(m: Option<Map<Seq<char>, MetaValue>>, keys: Set<Seq<char>>) -> Option<Map<Seq<char>, MetaValue>> {
    match m {
        None => None,
        Some(x) => if x.remove_keys(keys) == Map::<Seq<char>, MetaValue>::empty() {
            None
        } else {
            Some(x.remove_keys(keys))
        },
    }
}

/// The metadata object `m`, or a fresh empty one.
pub open spec fn object_or_empty(m: Option<Map<Seq<char>, MetaValue>>) -> Map<Seq<char>, MetaValue> {
    match m {
        Some(x) => x,
        None => Map::empty(),
    }
}

/// The value stored under `key` in the metadata `m`, if any.
pub open spec fn meta_lookup(m: Option<Map<Seq<char>, MetaValue>>, key: Seq<char>) -> Option<MetaValue> {
    match m {
        Some(x) => if x.contains_key(key) { Some(x[key]) } else { None },
        None => None,
    }
}

/// The boolean stored under `key`, false when absent or not a boolean.
pub open spec fn meta_flag(m: Option<Map<Seq<char>, MetaValue>>, key: Seq<char>) -> bool {
    match meta_lookup(m, key) {
        Some(MetaValue::Bool(b)) => b,
        _ => false,
    }
}

fn integrity_hash_key() -> (s: &'static str)
    ensures
        s@ == ssdeep_hash_key(),
{
    "integrity.ssdeep_hash"
}

fn integrity_mismatch_key() -> (s: &'static str)
    ensures
        s@ == on_disk_mismatch_key(),
{
    "integrity.on_disk_mismatch"
}

fn integrity_degraded_key() -> (s: &'static str)
    ensures
        s@ == ssdeep_degraded_key(),
{
    "integrity.ssdeep_degraded"
}

impl ProcessEvent {
    /// Takes the metadata object (or a fresh one), leaving none behind.
    fn take_metadata_object(&mut self) -> (m: StrMap<MetaValue>)
        ensures
            m@ == object_or_empty(meta_view(old(self).platform_metadata)),
            final(self).platform_metadata is None,
            same_except_metadata(*old(self), *final(self)),
    {
        match self.platform_metadata.take() {
            Some(m) => m,
            None => StrMap::new(),
        }
    }

    /// Removes `keys` from the metadata without creating it, and drops the metadata when
    /// nothing is left.
    fn clear_integrity_keys(&mut self, keys: &Vec<&str>)
        ensures
            meta_view(final(self).platform_metadata) == cleared(meta_view(old(self).platform_metadata), key_set(keys@, keys@.len() as int)),
            same_except_metadata(*old(self), *final(self)),
    {
        match self.platform_metadata.take() {
            None => {},
            Some(mut map) => {
                let ghost m0 = map@;
                let mut i: usize = 0;
                assert(m0.remove_keys(key_set(keys@, 0)) =~= m0);
                while i < keys.len()
                    invariant
                        i <= keys@.len(),
                        map@ == m0.remove_keys(key_set(keys@, i as int)),
                    decreases keys@.len() - i,
                {
                    map.remove(keys[i]);
                    assert(map@ =~= m0.remove_keys(key_set(keys@, i as int + 1)));
                    i = i + 1;
                }
                proof {
                    use_type_invariant(&map);
                    map.lemma_keys();
                }
                if map.len() == 0 {
                    proof {
                        assert(map@.dom() =~= Set::<Seq<char>>::empty());
                        assert(map@ =~= Map::<Seq<char>, MetaValue>::empty());
                    }
                } else {
                    proof {
                        assert(map@.contains_key(map.keys()[0]));
                        assert(map@ != Map::<Seq<char>, MetaValue>::empty());
                    }
                    self.platform_metadata = Some(map);
                }
            },
        }
    }

    /// Records the ssdeep signals. The all-default case (no hash, not degraded) only
    /// clears stale keys, never creating metadata; otherwise the hash is stored or removed
    /// and the degraded flag set or removed, keeping every other key.
    pub fn set_ssdeep_signal(&mut self, ssdeep_hash: Option<String>, ssdeep_degraded: bool)
        ensures
            ssdeep_hash is None && !ssdeep_degraded ==> meta_view(final(self).platform_metadata) == cleared(
                meta_view(old(self).platform_metadata),
                set![ssdeep_hash_key(), ssdeep_degraded_key()],
            ),
            !(ssdeep_hash is None && !ssdeep_degraded) ==> meta_view(final(self).platform_metadata) == Some(
                {
                    let base = object_or_empty(meta_view(old(self).platform_metadata));
                    let with_hash = match ssdeep_hash {
                        Some(h) => base.insert(ssdeep_hash_key(), MetaValue::Str(h)),
                        None => base.remove(ssdeep_hash_key()),
                    };
                    if ssdeep_degraded {
                        with_hash.insert(ssdeep_degraded_key(), MetaValue::Bool(true))
                    } else {
                        with_hash.remove(ssdeep_degraded_key())
                    }
                },
            ),
            same_except_metadata(*old(self), *final(self)),
    {
        if ssdeep_hash.is_none() && !ssdeep_degraded {
            let keys = vec![integrity_hash_key(), integrity_degraded_key()];
            self.clear_integrity_keys(&keys);
            proof {
                reveal_with_fuel(key_set, 3);
                assert(keys@[0]@ == ssdeep_hash_key());
                assert(keys@[1]@ == ssdeep_degraded_key());
                assert(key_set(keys@, 2) =~= set![ssdeep_hash_key(), ssdeep_degraded_key()]);
            }
            return;
        }
        let mut map = self.take_metadata_object();
        match ssdeep_hash {
            Some(hash) => {
                map.insert(String::from_str(integrity_hash_key()), MetaValue::Str(hash));
            },
            None => {
                map.remove(integrity_hash_key());
            },
        }
        if ssdeep_degraded {
            map.insert(String::from_str(integrity_degraded_key()), MetaValue::Bool(true));
        } else {
            map.remove(integrity_degraded_key());
        }
        self.platform_metadata = Some(map);
    }

    /// Records the on-disk-vs-running mismatch flag. The default (false) only clears the
    /// key, never creating metadata; true sets it, keeping every other key.
    pub fn set_on_disk_mismatch(&mut self, on_disk_mismatch: bool)
        ensures
            !on_disk_mismatch ==> meta_view(final(self).platform_metadata) == cleared(
                meta_view(old(self).platform_metadata),
                set![on_disk_mismatch_key()],
            ),
            on_disk_mismatch ==> meta_view(final(self).platform_metadata) == Some(
                object_or_empty(meta_view(old(self).platform_metadata)).insert(on_disk_mismatch_key(), MetaValue::Bool(true)),
            ),
            same_except_metadata(*old(self), *final(self)),
    {
        if !on_disk_mismatch {
            let keys = vec![integrity_mismatch_key()];
            self.clear_integrity_keys(&keys);
            proof {
                reveal_with_fuel(key_set, 2);
                assert(keys@[0]@ == on_disk_mismatch_key());
                assert(key_set(keys@, 1) =~= set![on_disk_mismatch_key()]);
            }
            return;
        }
        let mut map = self.take_metadata_object();
        map.insert(String::from_str(integrity_mismatch_key()), MetaValue::Bool(true));
        self.platform_metadata = Some(map);
    }

    /// The ssdeep fuzzy hash recorded in the metadata, if it is a string.
    pub fn ssdeep_hash(&self) -> (r: Option<&str>)
        ensures
            meta_lookup(meta_view(self.platform_metadata), ssdeep_hash_key()) matches Some(MetaValue::Str(h)) ==> (r matches Some(x) && x@ == h@),
            !(meta_lookup(meta_view(self.platform_metadata), ssdeep_hash_key()) matches Some(MetaValue::Str(_))) ==> r is None,
    {
        match &self.platform_metadata {
            None => None,
            Some(m) => match m.get(integrity_hash_key()) {
                Some(MetaValue::Str(h)) => Some(h.as_str()),
                _ => None,
            },
        }
    }

    fn meta_bool(&self, key: &str) -> (b: bool)
        ensures
            b == meta_flag(meta_view(self.platform_metadata), key@),
    {
        match &self.platform_metadata {
            None => false,
            Some(m) => match m.get(key) {
                Some(MetaValue::Bool(b)) => *b,
                _ => false,
            },
        }
    }

    /// Whether the on-disk-vs-running mismatch flag is set.
    pub fn on_disk_mismatch(&self) -> (b: bool)
        ensures
            b == meta_flag(meta_view(self.platform_metadata), on_disk_mismatch_key()),
    {
        self.meta_bool(integrity_mismatch_key())
    }

    /// Whether the degraded-coverage flag is set.
    pub fn ssdeep_degraded(&self) -> (b: bool)
        ensures
            b == meta_flag(meta_view(self.platform_metadata), ssdeep_degraded_key()),
    {
        self.meta_bool(integrity_degraded_key())
    }
}

/// Two process events agree on everything but their metadata.
pub open spec fn same_except_metadata(a: ProcessEvent, b: ProcessEvent) -> bool {
    ProcessEvent { platform_metadata: None, ..a } == ProcessEvent { platform_metadata: None, ..b }
}

/// The integrity setters compose independently: recording the mismatch flag leaves the
/// ssdeep hash and degraded flag as they were, and recording the ssdeep signals leaves the
/// mismatch flag as it was.
pub proof fn law_integrity_setters_independent(
    before: Option<Map<Seq<char>, MetaValue>>,
    after_mismatch: Option<Map<Seq<char>, MetaValue>>,
    mismatch: bool,
)
    requires
        !mismatch ==> after_mismatch == cleared(before, set![on_disk_mismatch_key()]),
        mismatch ==> after_mismatch == Some(object_or_empty(before).insert(on_disk_mismatch_key(), MetaValue::Bool(true))),
    ensures
        meta_lookup(after_mismatch, ssdeep_hash_key()) == meta_lookup(before, ssdeep_hash_key()),
        meta_lookup(after_mismatch, ssdeep_degraded_key()) == meta_lookup(before, ssdeep_degraded_key()),
        meta_flag(after_mismatch, on_disk_mismatch_key()) == mismatch,
{
    lemma_integrity_keys_distinct();
    if !mismatch {
        match before {
            None => {},
            Some(x) => {
                let r = x.remove_keys(set![on_disk_mismatch_key()]);
                if r == Map::<Seq<char>, MetaValue>::empty() {
                    assert(!r.contains_key(ssdeep_hash_key()));
                    assert(!r.contains_key(ssdeep_degraded_key()));
                }
            },
        }
    }
}

/// The default integrity signals never create metadata: an event without metadata still
/// has none after recording no hash, no degradation and no mismatch.
pub proof fn law_default_signals_stay_absent()
    ensures
        cleared(None, set![ssdeep_hash_key(), ssdeep_degraded_key()]) is None,
        cleared(None, set![on_disk_mismatch_key()]) is None,
{
}

/// Network monitoring event data.
#[derive(Debug, Clone, PartialEq, Eq)]
pub struct NetworkEvent {
    /// Connection identifier
    pub connection_id: String,
    /// Source address and port
    pub source_addr: String,
    /// Destination address and port
    pub dest_addr: String,
    /// Protocol (TCP, UDP, etc.)
    pub protocol: String,
    /// Connection state
    pub state: String,
    /// Associated process ID
    pub pid: Option<u32>,
    /// Bytes sent
    pub bytes_sent: u64,
    /// Bytes received
    pub bytes_received: u64,
    /// Event collection timestamp (Unix seconds)
    pub timestamp: u64,
}

/// Filesystem monitoring event data.
#[derive(Debug, Clone, PartialEq, Eq)]
pub struct FilesystemEvent {
    /// File path
    pub path: String,
    /// Operation type (create, modify, delete, access)
    pub operation: String,
    /// Associated process ID
    pub pid: Option<u32>,
    /// File size
    pub size: Option<u64>,
    /// File permissions
    pub permissions: Option<String>,
    /// File hash (for integrity monitoring)
    pub file_hash: Option<String>,
    /// Event collection timestamp (Unix seconds)
    pub timestamp: u64,
}

/// Performance monitoring event data.
#[derive(Debug, Clone, PartialEq, Eq)]
pub struct PerformanceEvent {
    /// Metric name
    pub metric_name: String,
    /// Metric value, as the bit pattern of an `f64`
    pub value_bits: u64,
    /// Metric unit
    pub unit: String,
    /// Associated process ID (if applicable)
    pub pid: Option<u32>,
    /// System component (CPU, memory, disk, network)
    pub component: String,
    /// Event collection timestamp (Unix seconds)
    pub timestamp: u64,
}

/// Unified collection event.
#[derive(Debug)]
pub enum CollectionEvent {
    /// Process monitoring events
    Process(ProcessEvent),
    /// Network monitoring events
    Network(NetworkEvent),
    /// Filesystem monitoring events
    Filesystem(FilesystemEvent),
    /// Performance monitoring events
    Performance(PerformanceEvent),
    /// Analysis collector trigger requests
    TriggerRequest(TriggerRequest),
}

/// The event type name of an event.
pub open spec fn event_type_name(e: CollectionEvent) -> Seq<char> {
    match e {
        CollectionEvent::Process(_) => "process"@,
        CollectionEvent::Network(_) => "network"@,
        CollectionEvent::Filesystem(_) => "filesystem"@,
        CollectionEvent::Performance(_) => "performance"@,
        CollectionEvent::TriggerRequest(_) => "trigger_request"@,
    }
}

/// The process an event is about, if any.
pub open spec fn event_pid(e: CollectionEvent) -> Option<u32> {
    match e {
        CollectionEvent::Process(p) => Some(p.pid),
        CollectionEvent::Network(n) => n.pid,
        CollectionEvent::Filesystem(f) => f.pid,
        CollectionEvent::Performance(p) => p.pid,
        CollectionEvent::TriggerRequest(t) => t.target_pid,
    }
}

/// The collection time of an event.
pub open spec fn event_timestamp(e: CollectionEvent) -> u64 {
    match e {
        CollectionEvent::Process(p) => p.timestamp,
        CollectionEvent::Network(n) => n.timestamp,
        CollectionEvent::Filesystem(f) => f.timestamp,
        CollectionEvent::Performance(p) => p.timestamp,
        CollectionEvent::TriggerRequest(t) => t.timestamp,
    }
}

impl CollectionEvent {
    /// Returns the timestamp of the event regardless of type.
    pub fn timestamp(&self) -> (t: u64)
        ensures
            t == event_timestamp(*self),
    {
        match self {
            CollectionEvent::Process(e) => e.timestamp,
            CollectionEvent::Network(e) => e.timestamp,
            CollectionEvent::Filesystem(e) => e.timestamp,
            CollectionEvent::Performance(e) => e.timestamp,
            CollectionEvent::TriggerRequest(e) => e.timestamp,
        }
    }

    /// Returns the event type as a string for logging and metrics.
    pub fn event_type(&self) -> (s: &'static str)
        ensures
            s@ == event_type_name(*self),
    {
        match self {
            CollectionEvent::Process(_) => "process",
            CollectionEvent::Network(_) => "network",
            CollectionEvent::Filesystem(_) => "filesystem",
            CollectionEvent::Performance(_) => "performance",
            CollectionEvent::TriggerRequest(_) => "trigger_request",
        }
    }

    /// Returns the associated process ID if available.
    pub fn pid(&self) -> (p: Option<u32>)
        ensures
            p == event_pid(*self),
    {
        match self {
            CollectionEvent::Process(e) => Some(e.pid),
            CollectionEvent::Network(e) => e.pid,
            CollectionEvent::Filesystem(e) => e.pid,
            CollectionEvent::Performance(e) => e.pid,
            CollectionEvent::TriggerRequest(e) => e.target_pid,
        }
    }
}

/// Whether `b` is a copy of `a`.
pub open spec fn same_process_event(a: ProcessEvent, b: ProcessEvent) -> bool {
    &&& a.pid == b.pid
    &&& a.ppid == b.ppid
    &&& a.name == b.name
    &&& a.executable_path == b.executable_path
    &&& a.command_line@ == b.command_line@
    &&& a.start_time == b.start_time
    &&& a.cpu_usage_bits == b.cpu_usage_bits
    &&& a.memory_usage == b.memory_usage
    &&& a.executable_hash == b.executable_hash
    &&& a.hash_algorithm == b.hash_algorithm
    &&& a.user_id == b.user_id
    &&& a.accessible == b.accessible
    &&& a.file_exists == b.file_exists
    &&& a.timestamp == b.timestamp
    &&& match (a.platform_metadata, b.platform_metadata) {
        (Some(x), Some(y)) => x@ == y@ && x.keys() == y.keys(),
        (None, None) => true,
        _ => false,
    }
}

/// Whether `b` is a copy of `a`.
pub open spec fn same_event(a: CollectionEvent, b: CollectionEvent) -> bool {
    match (a, b) {
        (CollectionEvent::Process(x), CollectionEvent::Process(y)) => same_process_event(x, y),
        (CollectionEvent::Network(x), CollectionEvent::Network(y)) => x == y,
        (CollectionEvent::Filesystem(x), CollectionEvent::Filesystem(y)) => x == y,
        (CollectionEvent::Performance(x), CollectionEvent::Performance(y)) => x == y,
        (CollectionEvent::TriggerRequest(x), CollectionEvent::TriggerRequest(y)) => same_request(x, y),
        _ => false,
    }
}

fn copy_string_vec(v: &Vec<String>) -> (r: Vec<String>)
    ensures
        r@ == v@,
{
    let mut r: Vec<String> = Vec::new();
    let mut i: usize = 0;
    while i < v.len()
        invariant
            i <= v@.len(),
            r@ == v@.take(i as int),
        decreases v@.len() - i,
    {
        r.push(v[i].clone());
        i = i + 1;
        assert(r@ =~= v@.take(i as int));
    }
    assert(r@ =~= v@);
    r
}

fn copy_opt(o: &Option<String>) -> (r: Option<String>)
    ensures
        r == *o,
{
    match o {
        Some(s) => Some(s.clone()),
        None => None,
    }
}

impl ProcessEvent {
    /// A copy of this event.
    pub fn duplicate(&self) -> (r: ProcessEvent)
        ensures
            same_process_event(*self, r),
    {
        ProcessEvent {
            pid: self.pid,
            ppid: self.ppid,
            name: self.name.clone(),
            executable_path: copy_opt(&self.executable_path),
            command_line: copy_string_vec(&self.command_line),
            start_time: self.start_time,
            cpu_usage_bits: self.cpu_usage_bits,
            memory_usage: self.memory_usage,
            executable_hash: copy_opt(&self.executable_hash),
            hash_algorithm: copy_opt(&self.hash_algorithm),
            user_id: copy_opt(&self.user_id),
            accessible: self.accessible,
            file_exists: self.file_exists,
            timestamp: self.timestamp,
            platform_metadata: match &self.platform_metadata {
                Some(m) => Some(m.duplicate()),
                None => None,
            },
        }
    }
}

impl CollectionEvent {
    /// A copy of this event.
    pub fn duplicate(&self) -> (r: CollectionEvent)
        ensures
            same_event(*self, r),
    {
        match self {
            CollectionEvent::Process(e) => CollectionEvent::Process(e.duplicate()),
            CollectionEvent::Network(e) => CollectionEvent::Network(
                NetworkEvent {
                    connection_id: e.connection_id.clone(),
                    source_addr: e.source_addr.clone(),
                    dest_addr: e.dest_addr.clone(),
                    protocol: e.protocol.clone(),
                    state: e.state.clone(),
                    pid: e.pid,
                    bytes_sent: e.bytes_sent,
                    bytes_received: e.bytes_received,
                    timestamp: e.timestamp,
                },
            ),
            CollectionEvent::Filesystem(e) => CollectionEvent::Filesystem(
                FilesystemEvent {
                    path: e.path.clone(),
                    operation: e.operation.clone(),
                    pid: e.pid,
                    size: e.size,
                    permissions: copy_opt(&e.permissions),
                    file_hash: copy_opt(&e.file_hash),
                    timestamp: e.timestamp,
                },
            ),
            CollectionEvent::Performance(e) => CollectionEvent::Performance(
                PerformanceEvent {
                    metric_name: e.metric_name.clone(),
                    value_bits: e.value_bits,
                    unit: e.unit.clone(),
                    pid: e.pid,
                    component: e.component.clone(),
                    timestamp: e.timestamp,
                },
            ),
            CollectionEvent::TriggerRequest(t) => {
                let d = t.duplicate();
                CollectionEvent::TriggerRequest(d)
            },
        }
    }
}

} // verus!
