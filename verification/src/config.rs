//! Fork targets of a test configuration and the rules that they must meet.

use vstd::prelude::*;
use vstd::string::StringExecFns;
use itertools::Itertools;

verus! {

/// The runner's configuration with its fork targets checked.
#[derive(Debug, PartialEq, Default)]
pub struct ForgeConfigFromScarb {
    /// Should runner exit after first failed test
    pub exit_first: bool,
    /// How many runs should fuzzer execute; not zero
    pub fuzzer_runs: Option<u32>,
    /// Seed to be used by fuzzer
    pub fuzzer_seed: Option<u64>,
    /// Display more detailed info about used resources
    pub detailed_resources: bool,
    /// Save execution traces of all test which have passed and are not fuzz tests
    pub save_trace_data: bool,
    /// Build profiles of all tests which have passed and are not fuzz tests
    pub build_profile: bool,
    /// Generate a coverage report for the executed tests which have passed and are not fuzz tests
    pub coverage: bool,
    /// Fork configuration profiles
    pub fork: Vec<ForkTarget>,
    /// Limit of steps
    pub max_n_steps: Option<u32>,
}

/// A named fork target: an endpoint and the selector of a block.
#[non_exhaustive]
#[derive(Debug, PartialEq, Clone)]
pub struct ForkTarget {
    pub name: String,
    pub url: String,
    pub block_id_type: String,
    pub block_id_value: String,
}

impl ForkTarget {
    /// A fork target with the given fields.
    #[must_use]
    pub fn new(name: String, url: String, block_id_type: String, block_id_value: String) -> (target: Self)
        ensures
            target.name == name,
            target.url == url,
            target.block_id_type == block_id_type,
            target.block_id_value == block_id_value,
    {
        Self { name, url, block_id_type, block_id_value }
    }
}

/// One entry of a block selector as it was read: `key = value`.
#[derive(Debug, PartialEq, Default, Clone)]
pub struct BlockIdEntry {
    pub key: String,
    pub value: String,
}

/// A fork target as it was read, with every entry of its block selector.
#[derive(Debug, PartialEq, Default, Clone)]
pub struct RawForkTarget {
    pub name: String,
    pub url: String,
    pub block_id: Vec<BlockIdEntry>,
}

/// The runner's configuration as it was read.
#[derive(Debug, PartialEq, Default)]
pub struct RawForgeConfig {
    pub exit_first: bool,
    pub fuzzer_runs: Option<u32>,
    pub fuzzer_seed: Option<u64>,
    pub detailed_resources: bool,
    pub save_trace_data: bool,
    pub build_profile: bool,
    pub coverage: bool,
    pub fork: Vec<RawForkTarget>,
    pub max_n_steps: Option<u32>,
}

/// What is wrong with a configuration's fork targets.
#[derive(Debug, PartialEq, Eq, Clone)]
pub enum ConfigError {
    /// Two fork targets have the same name.
    DuplicatedForkNames,
    /// A block selector has no entry, or more than one.
    BlockIdNotSetOnce,
    /// A block selector's key is none of `number`, `hash` and `tag`.
    InvalidBlockIdKey(String),
    /// A block selector names a tag other than `latest`.
    TagNotLatest,
}

/// A configuration error with its text as a sequence of characters.
pub enum ConfigErrorView {
    DuplicatedForkNames,
    BlockIdNotSetOnce,
    InvalidBlockIdKey(Seq<char>),
    TagNotLatest,
}

impl View for ConfigError {
    type V = ConfigErrorView;

    open spec fn view(&self) -> ConfigErrorView {
        match self {
            ConfigError::DuplicatedForkNames => ConfigErrorView::DuplicatedForkNames,
            ConfigError::BlockIdNotSetOnce => ConfigErrorView::BlockIdNotSetOnce,
            ConfigError::InvalidBlockIdKey(key) => ConfigErrorView::InvalidBlockIdKey(key@),
            ConfigError::TagNotLatest => ConfigErrorView::TagNotLatest,
        }
    }
}

impl ConfigError {
    /// The text of the error.
    pub open spec fn text(self) -> Seq<char> {
        match self@ {
            ConfigErrorView::DuplicatedForkNames => "Some fork names are duplicated"@,
            ConfigErrorView::BlockIdNotSetOnce => "block_id should be set once per fork"@,
            ConfigErrorView::InvalidBlockIdKey(key) => "block_id = "@ + key
                + " is not valid. Possible values are = \"number\", \"hash\" and \"tag\""@,
            ConfigErrorView::TagNotLatest => "block_id.tag can only be equal to latest"@,
        }
    }

    /// The message that the error is reported with.
    pub fn message(&self) -> (m: String)
        ensures
            m@ == self.text(),
    {
        match self {
            ConfigError::DuplicatedForkNames => String::from_str("Some fork names are duplicated"),
            ConfigError::BlockIdNotSetOnce => String::from_str(
                "block_id should be set once per fork",
            ),
            ConfigError::InvalidBlockIdKey(key) => String::from_str("block_id = ").concat(
                key.as_str(),
            ).concat(" is not valid. Possible values are = \"number\", \"hash\" and \"tag\""),
            ConfigError::TagNotLatest => String::from_str(
                "block_id.tag can only be equal to latest",
            ),
        }
    }
}

/// No two fork targets have the same name.
pub open spec fn names_distinct(forks: Seq<RawForkTarget>) -> bool {
    forall|i: int, j: int| 0 <= i < j < forks.len() ==> forks[i].name@ != forks[j].name@
}

/// What is wrong with one block selector, if anything: it must have exactly
/// one entry, whose key is `number`, `hash` or `tag`, and a tag must be
/// `latest`.
pub open spec fn block_id_fault(block_id: Seq<BlockIdEntry>) -> Option<ConfigErrorView> {
    if block_id.len() != 1 {
        Some(ConfigErrorView::BlockIdNotSetOnce)
    } else if block_id[0].key@ != "number"@ && block_id[0].key@ != "hash"@ && block_id[0].key@
        != "tag"@ {
        Some(ConfigErrorView::InvalidBlockIdKey(block_id[0].key@))
    } else if block_id[0].key@ == "tag"@ && block_id[0].value@ != "latest"@ {
        Some(ConfigErrorView::TagNotLatest)
    } else {
        None
    }
}

/// The fault of the first fork target from position `from` on that has one.
pub open spec fn first_fault_from(forks: Seq<RawForkTarget>, from: int) -> Option<ConfigErrorView>
    decreases forks.len() - from,
{
    if from < 0 || from >= forks.len() {
        None
    } else {
        match block_id_fault(forks[from].block_id@) {
            Some(fault) => Some(fault),
            None => first_fault_from(forks, from + 1),
        }
    }
}

/// What is wrong with the fork targets, if anything: duplicated names come
/// first, then the first faulty block selector.
pub open spec fn config_fault(forks: Seq<RawForkTarget>) -> Option<ConfigErrorView> {
    if !names_distinct(forks) {
        Some(ConfigErrorView::DuplicatedForkNames)
    } else {
        first_fault_from(forks, 0)
    }
}

/// Where no fork target from `from` on has a fault, each has a sound block
/// selector.
pub proof fn lemma_no_fault_everywhere(forks: Seq<RawForkTarget>, from: int)
    requires
        0 <= from,
        first_fault_from(forks, from) is None,
    ensures
        forall|i: int| from <= i < forks.len() ==> block_id_fault(#[trigger] forks[i].block_id@) is None,
    decreases forks.len() - from,
{
    if from < forks.len() {
        lemma_no_fault_everywhere(forks, from + 1);
    }
}

/// Calls `Itertools::exactly_one` on the entries in order: the entry where
/// there is one and no second, nothing otherwise.
#[verifier::external_body]
fn exactly_one_entry(entries: &Vec<BlockIdEntry>) -> (only: Option<&BlockIdEntry>)
    ensures
        only is Some <==> entries.len() == 1,
        only is Some ==> *only->Some_0 == entries[0],
{
    entries.iter().exactly_one().ok()
}

/// Tells whether two fork targets have the same name.
pub fn has_duplicated_names(forks: &Vec<RawForkTarget>) -> (duplicated: bool)
    ensures
        duplicated == !names_distinct(forks@),
{
    let mut j: usize = 0;
    while j < forks.len()
        invariant
            j <= forks.len(),
            forall|a: int, b: int| 0 <= a < b < j ==> forks@[a].name@ != forks@[b].name@,
        decreases forks.len() - j,
    {
        let mut i: usize = 0;
        while i < j
            invariant
                i <= j,
                j < forks.len(),
                forall|a: int| 0 <= a < i ==> forks@[a].name@ != forks@[j as int].name@,
            decreases j - i,
        {
            if forks[i].name == forks[j].name {
                return true;
            }
            i = i + 1;
        }
        j = j + 1;
    }
    false
}

/// Checks one block selector.
pub fn check_block_id(block_id: &Vec<BlockIdEntry>) -> (fault: Option<ConfigError>)
    ensures
        fault is Some <==> block_id_fault(block_id@) is Some,
        fault is Some ==> Some(fault->Some_0@) == block_id_fault(block_id@),
{
    let entry = match exactly_one_entry(block_id) {
        Some(entry) => entry,
        None => {
            return Some(ConfigError::BlockIdNotSetOnce);
        },
    };
    let number = String::from_str("number");
    let hash = String::from_str("hash");
    let tag = String::from_str("tag");
    let latest = String::from_str("latest");
    if !(entry.key == number || entry.key == hash || entry.key == tag) {
        return Some(ConfigError::InvalidBlockIdKey(entry.key.clone()));
    }
    if entry.key == tag && !(entry.value == latest) {
        return Some(ConfigError::TagNotLatest);
    }
    None
}

/// Checks the fork targets of a configuration and hands the configuration
/// back where nothing is wrong: the names are distinct, and every block
/// selector has exactly one entry, `number`, `hash` or `tag`, a tag being
/// `latest`.
pub fn validate_raw_fork_config(raw_config: RawForgeConfig) -> (checked: Result<
    RawForgeConfig,
    ConfigError,
>)
    ensures
        checked is Ok <==> config_fault(raw_config.fork@) is None,
        checked is Ok ==> checked->Ok_0 == raw_config,
        checked is Err ==> Some(checked->Err_0@) == config_fault(raw_config.fork@),
{
    if has_duplicated_names(&raw_config.fork) {
        return Err(ConfigError::DuplicatedForkNames);
    }
    let mut i: usize = 0;
    while i < raw_config.fork.len()
        invariant
            i <= raw_config.fork.len(),
            names_distinct(raw_config.fork@),
            first_fault_from(raw_config.fork@, 0) == first_fault_from(raw_config.fork@, i as int),
        decreases raw_config.fork.len() - i,
    {
        match check_block_id(&raw_config.fork[i].block_id) {
            Some(fault) => {
                assert(first_fault_from(raw_config.fork@, i as int) == Some(fault@));
                return Err(fault);
            },
            None => {
                assert(first_fault_from(raw_config.fork@, i as int) == first_fault_from(
                    raw_config.fork@,
                    i + 1,
                ));
            },
        }
        i = i + 1;
    }
    Ok(raw_config)
}

/// The fork target that a sound raw target stands for.
pub open spec fn target_matches(target: ForkTarget, raw: RawForkTarget) -> bool {
    &&& raw.block_id.len() == 1
    &&& target.name@ == raw.name@
    &&& target.url@ == raw.url@
    &&& target.block_id_type@ == raw.block_id[0].key@
    &&& target.block_id_value@ == raw.block_id[0].value@
}

impl ForgeConfigFromScarb {
    /// The checked configuration for a raw one: the error that the check of
    /// the fork targets gives, or the same settings with each fork target's
    /// one selector entry as its block id type and value.
    pub fn try_from(value: RawForgeConfig) -> (config: Result<Self, ConfigError>)
        ensures
            config is Ok <==> config_fault(value.fork@) is None,
            config is Err ==> Some(config->Err_0@) == config_fault(value.fork@),
            config is Ok ==> {
                let c = config->Ok_0;
                &&& c.exit_first == value.exit_first
                &&& c.fuzzer_runs == value.fuzzer_runs
                &&& c.fuzzer_seed == value.fuzzer_seed
                &&& c.detailed_resources == value.detailed_resources
                &&& c.save_trace_data == value.save_trace_data
                &&& c.build_profile == value.build_profile
                &&& c.coverage == value.coverage
                &&& c.max_n_steps == value.max_n_steps
                &&& c.fork@.len() == value.fork@.len()
                &&& forall|i: int|
                    0 <= i < c.fork@.len() ==> target_matches(#[trigger] c.fork@[i], value.fork@[i])
            },
    {
        let value = match validate_raw_fork_config(value) {
            Ok(value) => value,
            Err(fault) => {
                return Err(fault);
            },
        };
        proof {
            lemma_no_fault_everywhere(value.fork@, 0);
        }
        let mut fork_targets: Vec<ForkTarget> = Vec::new();
        let mut i: usize = 0;
        while i < value.fork.len()
            invariant
                i <= value.fork.len(),
                fork_targets.len() == i,
                forall|k: int|
                    0 <= k < value.fork.len() ==> block_id_fault(
                        #[trigger] value.fork@[k].block_id@,
                    ) is None,
                forall|k: int|
                    0 <= k < i ==> target_matches(#[trigger] fork_targets@[k], value.fork@[k]),
            decreases value.fork.len() - i,
        {
            let raw_fork_target = &value.fork[i];
            assert(block_id_fault(value.fork@[i as int].block_id@) is None);
            let entry = &raw_fork_target.block_id[0];
            fork_targets.push(
                ForkTarget::new(
                    raw_fork_target.name.clone(),
                    raw_fork_target.url.clone(),
                    entry.key.clone(),
                    entry.value.clone(),
                ),
            );
            i = i + 1;
        }
        Ok(
            ForgeConfigFromScarb {
                exit_first: value.exit_first,
                fuzzer_runs: value.fuzzer_runs,
                fuzzer_seed: value.fuzzer_seed,
                detailed_resources: value.detailed_resources,
                save_trace_data: value.save_trace_data,
                build_profile: value.build_profile,
                coverage: value.coverage,
                fork: fork_targets,
                max_n_steps: value.max_n_steps,
            },
        )
    }
}

} // verus!
