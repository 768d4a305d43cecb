//! The pallet's plain data: enumerations, records, and their index codes.
use vstd::prelude::*;

use crate::vec_map::MapKey;

verus! {

pub type AccountId = u64;

pub type BlockNumber = u64;

pub type Balance = u128;

/// Blocks per year at six-second blocks.
pub const BLOCKS_PER_YEAR: u32 = 5_256_000;

/// Maximum number of accounts that may delegate to one delegate.
pub const MAX_DELEGATION_RECEIVERS: usize = 100;

/// Minimum council size.
pub const MIN_COUNCIL_MEMBERS: u32 = 7;

/// Maximum council size.
pub const MAX_COUNCIL_MEMBERS: u32 = 12;

/// Constitutional cap on the council.
pub const ABSOLUTE_MAX_COUNCIL: u32 = 32;

/// Seven days of blocks.
pub const VOTING_PERIOD: u32 = 100_800;

/// Supermajority threshold, in percent.
pub const SUPERMAJORITY_THRESHOLD: u32 = 66;

/// Percentage a simple majority requires: more than half.
pub const SIMPLE_MAJORITY_THRESHOLD: u32 = 51;

/// Launch period of an emergency proposal: one hour of six-second blocks.
pub const EMERGENCY_LAUNCH_PERIOD: u64 = 600;

/// Voting period of an emergency proposal: three hours of six-second blocks.
pub const EMERGENCY_VOTING_PERIOD: u64 = 1_800;

/// Blocks per quarter for the participation audit.
pub const BLOCKS_PER_QUARTER: u64 = 1_296_000;

/// Accounts audited per quarterly participation check.
pub const MAX_CHECKS_PER_QUARTER: usize = 20;

/// Term expiries processed per block.
pub const MAX_EXPIRIES_PER_BLOCK: usize = 10;

/// Governance participation tier, derived from a KYC verification level.
#[derive(Clone, Copy, Debug, PartialEq, Eq, Structural)]
pub enum ParticipationTier {
    Observer,
    Contributor,
    Validator,
}

impl ParticipationTier {
    /// Levels 0 and 1 observe, 2 contributes, 3 and 4 validate; any other
    /// level observes.
    pub fn from_verification_level(level: u8) -> (t: Self)
        ensures
            t == (if level == 2 {
                ParticipationTier::Contributor
            } else if level == 3 || level == 4 {
                ParticipationTier::Validator
            } else {
                ParticipationTier::Observer
            }),
    {
        match level {
            0 => ParticipationTier::Observer,
            1 => ParticipationTier::Observer,
            2 => ParticipationTier::Contributor,
            3..=4 => ParticipationTier::Validator,
            _ => ParticipationTier::Observer,
        }
    }
}

/// Government departments.
#[derive(Clone, Copy, Debug, PartialEq, Eq, Structural)]
pub enum Department {
    Finance,
    Education,
    Health,
    Works,
    Justice,
    Tourism,
    Agriculture,
    Defense,
}

impl View for Department {
    type V = Department;

    open spec fn view(&self) -> Department {
        *self
    }
}

impl MapKey for Department {
    fn key_eq(&self, other: &Self) -> (b: bool) {
        *self == *other
    }

    fn key_clone(&self) -> (c: Self) {
        *self
    }
}

/// The department with index `i`, in declaration order.
pub open spec fn department_of(i: u8) -> Option<Department> {
    if i == 0 {
        Some(Department::Finance)
    } else if i == 1 {
        Some(Department::Education)
    } else if i == 2 {
        Some(Department::Health)
    } else if i == 3 {
        Some(Department::Works)
    } else if i == 4 {
        Some(Department::Justice)
    } else if i == 5 {
        Some(Department::Tourism)
    } else if i == 6 {
        Some(Department::Agriculture)
    } else if i == 7 {
        Some(Department::Defense)
    } else {
        None
    }
}

pub open spec fn department_index_of(d: Department) -> u8 {
    match d {
        Department::Finance => 0,
        Department::Education => 1,
        Department::Health => 2,
        Department::Works => 3,
        Department::Justice => 4,
        Department::Tourism => 5,
        Department::Agriculture => 6,
        Department::Defense => 7,
    }
}

impl Department {
    pub fn from_index(i: u8) -> (d: Option<Department>)
        ensures
            d == department_of(i),
    {
        match i {
            0 => Some(Department::Finance),
            1 => Some(Department::Education),
            2 => Some(Department::Health),
            3 => Some(Department::Works),
            4 => Some(Department::Justice),
            5 => Some(Department::Tourism),
            6 => Some(Department::Agriculture),
            7 => Some(Department::Defense),
            _ => None,
        }
    }

    pub fn to_index(&self) -> (i: u8)
        ensures
            i == department_index_of(*self),
    {
        match self {
            Department::Finance => 0,
            Department::Education => 1,
            Department::Health => 2,
            Department::Works => 3,
            Department::Justice => 4,
            Department::Tourism => 5,
            Department::Agriculture => 6,
            Department::Defense => 7,
        }
    }

    /// Display name.
    pub fn name(&self) -> (s: &'static str)
        ensures
            s@ == (match *self {
                Department::Finance => "Finance"@,
                Department::Education => "Education"@,
                Department::Health => "Health"@,
                Department::Works => "Public Works"@,
                Department::Justice => "Justice"@,
                Department::Tourism => "Tourism"@,
                Department::Agriculture => "Agriculture"@,
                Department::Defense => "Defense"@,
            }),
    {
        match self {
            Department::Finance => "Finance",
            Department::Education => "Education",
            Department::Health => "Health",
            Department::Works => "Public Works",
            Department::Justice => "Justice",
            Department::Tourism => "Tourism",
            Department::Agriculture => "Agriculture",
            Department::Defense => "Defense",
        }
    }

    /// On-chain entity prefix, such as `gov.finance`.
    pub fn prefix(&self) -> (s: &'static str)
        ensures
            s@ == (match *self {
                Department::Finance => "gov.finance"@,
                Department::Education => "gov.education"@,
                Department::Health => "gov.health"@,
                Department::Works => "gov.works"@,
                Department::Justice => "gov.justice"@,
                Department::Tourism => "gov.tourism"@,
                Department::Agriculture => "gov.agriculture"@,
                Department::Defense => "gov.defense"@,
            }),
    {
        match self {
            Department::Finance => "gov.finance",
            Department::Education => "gov.education",
            Department::Health => "gov.health",
            Department::Works => "gov.works",
            Department::Justice => "gov.justice",
            Department::Tourism => "gov.tourism",
            Department::Agriculture => "gov.agriculture",
            Department::Defense => "gov.defense",
        }
    }
}

/// Foundation board roles.
#[derive(Clone, Copy, Debug, PartialEq, Eq, Structural)]
pub enum BoardRole {
    Founder,
    TechnicalSteward,
    FSCRepresentative,
    BTBDelegate,
    CitizenDelegate,
    SecurityAuditor,
    CultureEthicsAdvisor,
}

impl View for BoardRole {
    type V = BoardRole;

    open spec fn view(&self) -> BoardRole {
        *self
    }
}

impl MapKey for BoardRole {
    fn key_eq(&self, other: &Self) -> (b: bool) {
        *self == *other
    }

    fn key_clone(&self) -> (c: Self) {
        *self
    }
}

pub open spec fn board_role_of(i: u8) -> Option<BoardRole> {
    if i == 0 {
        Some(BoardRole::Founder)
    } else if i == 1 {
        Some(BoardRole::TechnicalSteward)
    } else if i == 2 {
        Some(BoardRole::FSCRepresentative)
    } else if i == 3 {
        Some(BoardRole::BTBDelegate)
    } else if i == 4 {
        Some(BoardRole::CitizenDelegate)
    } else if i == 5 {
        Some(BoardRole::SecurityAuditor)
    } else if i == 6 {
        Some(BoardRole::CultureEthicsAdvisor)
    } else {
        None
    }
}

pub open spec fn board_role_index_of(r: BoardRole) -> u8 {
    match r {
        BoardRole::Founder => 0,
        BoardRole::TechnicalSteward => 1,
        BoardRole::FSCRepresentative => 2,
        BoardRole::BTBDelegate => 3,
        BoardRole::CitizenDelegate => 4,
        BoardRole::SecurityAuditor => 5,
        BoardRole::CultureEthicsAdvisor => 6,
    }
}

pub open spec fn role_max_count(r: BoardRole) -> u32 {
    match r {
        BoardRole::Founder => 1,
        BoardRole::TechnicalSteward => 2,
        BoardRole::FSCRepresentative => 1,
        BoardRole::BTBDelegate => 1,
        BoardRole::CitizenDelegate => 3,
        BoardRole::SecurityAuditor => 2,
        BoardRole::CultureEthicsAdvisor => 1,
    }
}

impl BoardRole {
    pub fn from_index(i: u8) -> (r: Option<BoardRole>)
        ensures
            r == board_role_of(i),
    {
        match i {
            0 => Some(BoardRole::Founder),
            1 => Some(BoardRole::TechnicalSteward),
            2 => Some(BoardRole::FSCRepresentative),
            3 => Some(BoardRole::BTBDelegate),
            4 => Some(BoardRole::CitizenDelegate),
            5 => Some(BoardRole::SecurityAuditor),
            6 => Some(BoardRole::CultureEthicsAdvisor),
            _ => None,
        }
    }

    pub fn to_index(&self) -> (i: u8)
        ensures
            i == board_role_index_of(*self),
    {
        match self {
            BoardRole::Founder => 0,
            BoardRole::TechnicalSteward => 1,
            BoardRole::FSCRepresentative => 2,
            BoardRole::BTBDelegate => 3,
            BoardRole::CitizenDelegate => 4,
            BoardRole::SecurityAuditor => 5,
            BoardRole::CultureEthicsAdvisor => 6,
        }
    }

    /// Display name.
    pub fn name(&self) -> (s: &'static str)
        ensures
            s@ == (match *self {
                BoardRole::Founder => "Founder"@,
                BoardRole::TechnicalSteward => "Technical Steward"@,
                BoardRole::FSCRepresentative => "FSC Representative"@,
                BoardRole::BTBDelegate => "BTB Delegate"@,
                BoardRole::CitizenDelegate => "Citizen Delegate"@,
                BoardRole::SecurityAuditor => "Security Auditor"@,
                BoardRole::CultureEthicsAdvisor => "Culture & Ethics Advisor"@,
            }),
    {
        match self {
            BoardRole::Founder => "Founder",
            BoardRole::TechnicalSteward => "Technical Steward",
            BoardRole::FSCRepresentative => "FSC Representative",
            BoardRole::BTBDelegate => "BTB Delegate",
            BoardRole::CitizenDelegate => "Citizen Delegate",
            BoardRole::SecurityAuditor => "Security Auditor",
            BoardRole::CultureEthicsAdvisor => "Culture & Ethics Advisor",
        }
    }

    /// Every role is subject to term limits and rotation.
    pub fn is_rotating(&self) -> (b: bool)
        ensures
            b,
    {
        true
    }

    /// Maximum number of members holding this role.
    pub fn max_count(&self) -> (n: u32)
        ensures
            n == role_max_count(*self),
    {
        match self {
            BoardRole::Founder => 1,
            BoardRole::TechnicalSteward => 2,
            BoardRole::FSCRepresentative => 1,
            BoardRole::BTBDelegate => 1,
            BoardRole::CitizenDelegate => 3,
            BoardRole::SecurityAuditor => 2,
            BoardRole::CultureEthicsAdvisor => 1,
        }
    }
}

/// The six districts of Belize.
#[derive(Clone, Copy, Debug, PartialEq, Eq, Structural)]
pub enum BelizeDistrict {
    Belize,
    Cayo,
    Corozal,
    OrangeWalk,
    StannCreek,
    Toledo,
}

impl View for BelizeDistrict {
    type V = BelizeDistrict;

    open spec fn view(&self) -> BelizeDistrict {
        *self
    }
}

impl MapKey for BelizeDistrict {
    fn key_eq(&self, other: &Self) -> (b: bool) {
        *self == *other
    }

    fn key_clone(&self) -> (c: Self) {
        *self
    }
}

pub open spec fn district_of(i: u8) -> Option<BelizeDistrict> {
    if i == 0 {
        Some(BelizeDistrict::Belize)
    } else if i == 1 {
        Some(BelizeDistrict::Cayo)
    } else if i == 2 {
        Some(BelizeDistrict::Corozal)
    } else if i == 3 {
        Some(BelizeDistrict::OrangeWalk)
    } else if i == 4 {
        Some(BelizeDistrict::StannCreek)
    } else if i == 5 {
        Some(BelizeDistrict::Toledo)
    } else {
        None
    }
}

pub open spec fn district_index_of(d: BelizeDistrict) -> u8 {
    match d {
        BelizeDistrict::Belize => 0,
        BelizeDistrict::Cayo => 1,
        BelizeDistrict::Corozal => 2,
        BelizeDistrict::OrangeWalk => 3,
        BelizeDistrict::StannCreek => 4,
        BelizeDistrict::Toledo => 5,
    }
}

pub open spec fn seats_of(d: BelizeDistrict) -> u32 {
    match d {
        BelizeDistrict::Belize => 3,
        BelizeDistrict::Cayo => 2,
        BelizeDistrict::Corozal => 1,
        BelizeDistrict::OrangeWalk => 2,
        BelizeDistrict::StannCreek => 2,
        BelizeDistrict::Toledo => 2,
    }
}

impl BelizeDistrict {
    /// Display name.
    pub fn name(&self) -> (s: &'static str)
        ensures
            s@ == (match *self {
                BelizeDistrict::Belize => "Belize District"@,
                BelizeDistrict::Cayo => "Cayo District"@,
                BelizeDistrict::Corozal => "Corozal District"@,
                BelizeDistrict::OrangeWalk => "Orange Walk District"@,
                BelizeDistrict::StannCreek => "Stann Creek District"@,
                BelizeDistrict::Toledo => "Toledo District"@,
            }),
    {
        match self {
            BelizeDistrict::Belize => "Belize District",
            BelizeDistrict::Cayo => "Cayo District",
            BelizeDistrict::Corozal => "Corozal District",
            BelizeDistrict::OrangeWalk => "Orange Walk District",
            BelizeDistrict::StannCreek => "Stann Creek District",
            BelizeDistrict::Toledo => "Toledo District",
        }
    }

    /// Council seats allocated to the district.
    pub fn seat_allocation(&self) -> (n: u32)
        ensures
            n == seats_of(*self),
    {
        match self {
            BelizeDistrict::Belize => 3,
            BelizeDistrict::Cayo => 2,
            BelizeDistrict::Corozal => 1,
            BelizeDistrict::OrangeWalk => 2,
            BelizeDistrict::StannCreek => 2,
            BelizeDistrict::Toledo => 2,
        }
    }

    pub fn to_index(&self) -> (i: u8)
        ensures
            i == district_index_of(*self),
    {
        match self {
            BelizeDistrict::Belize => 0,
            BelizeDistrict::Cayo => 1,
            BelizeDistrict::Corozal => 2,
            BelizeDistrict::OrangeWalk => 3,
            BelizeDistrict::StannCreek => 4,
            BelizeDistrict::Toledo => 5,
        }
    }

    pub fn from_index(index: u8) -> (d: Option<BelizeDistrict>)
        ensures
            d == district_of(index),
    {
        match index {
            0 => Some(BelizeDistrict::Belize),
            1 => Some(BelizeDistrict::Cayo),
            2 => Some(BelizeDistrict::Corozal),
            3 => Some(BelizeDistrict::OrangeWalk),
            4 => Some(BelizeDistrict::StannCreek),
            5 => Some(BelizeDistrict::Toledo),
            _ => None,
        }
    }
}

/// District election phase.
#[derive(Clone, Copy, Debug, PartialEq, Eq, Structural)]
pub enum ElectionStatus {
    Registration,
    Voting,
    Finalized,
    Cancelled,
}

pub open spec fn election_status_index_of(s: ElectionStatus) -> u8 {
    match s {
        ElectionStatus::Registration => 0,
        ElectionStatus::Voting => 1,
        ElectionStatus::Finalized => 2,
        ElectionStatus::Cancelled => 3,
    }
}

/// Kinds of governance proposal.
#[derive(Clone, Copy, Debug, PartialEq, Eq, Structural)]
pub enum ProposalType {
    Constitutional,
    Economic,
    Council,
    Technical,
    Emergency,
    International,
    Community,
    DistrictLocal,
    WellbeingFunding,
}

pub open spec fn proposal_type_of(i: u8) -> Option<ProposalType> {
    if i == 0 {
        Some(ProposalType::Constitutional)
    } else if i == 1 {
        Some(ProposalType::Economic)
    } else if i == 2 {
        Some(ProposalType::Council)
    } else if i == 3 {
        Some(ProposalType::Technical)
    } else if i == 4 {
        Some(ProposalType::Emergency)
    } else if i == 5 {
        Some(ProposalType::International)
    } else if i == 6 {
        Some(ProposalType::Community)
    } else if i == 7 {
        Some(ProposalType::DistrictLocal)
    } else if i == 8 {
        Some(ProposalType::WellbeingFunding)
    } else {
        None
    }
}

pub fn proposal_type_from_index(i: u8) -> (t: Option<ProposalType>)
    ensures
        t == proposal_type_of(i),
{
    match i {
        0 => Some(ProposalType::Constitutional),
        1 => Some(ProposalType::Economic),
        2 => Some(ProposalType::Council),
        3 => Some(ProposalType::Technical),
        4 => Some(ProposalType::Emergency),
        5 => Some(ProposalType::International),
        6 => Some(ProposalType::Community),
        7 => Some(ProposalType::DistrictLocal),
        8 => Some(ProposalType::WellbeingFunding),
        _ => None,
    }
}

pub open spec fn proposal_type_index_of(t: ProposalType) -> u8 {
    match t {
        ProposalType::Constitutional => 0,
        ProposalType::Economic => 1,
        ProposalType::Council => 2,
        ProposalType::Technical => 3,
        ProposalType::Emergency => 4,
        ProposalType::International => 5,
        ProposalType::Community => 6,
        ProposalType::DistrictLocal => 7,
        ProposalType::WellbeingFunding => 8,
    }
}

pub fn proposal_type_to_index(t: ProposalType) -> (i: u8)
    ensures
        i == proposal_type_index_of(t),
{
    match t {
        ProposalType::Constitutional => 0,
        ProposalType::Economic => 1,
        ProposalType::Council => 2,
        ProposalType::Technical => 3,
        ProposalType::Emergency => 4,
        ProposalType::International => 5,
        ProposalType::Community => 6,
        ProposalType::DistrictLocal => 7,
        ProposalType::WellbeingFunding => 8,
    }
}

/// Required approval threshold.
#[derive(Clone, Copy, Debug, PartialEq, Eq, Structural)]
pub enum VotingThreshold {
    SimpleMajority,
    Supermajority,
    Unanimous,
    Custom(u8),
}

pub open spec fn threshold_of(i: u8) -> Option<VotingThreshold> {
    if i == 0 {
        Some(VotingThreshold::SimpleMajority)
    } else if i == 1 {
        Some(VotingThreshold::Supermajority)
    } else if i == 2 {
        Some(VotingThreshold::Unanimous)
    } else {
        None
    }
}

pub fn threshold_from_index(i: u8) -> (t: Option<VotingThreshold>)
    ensures
        t == threshold_of(i),
{
    match i {
        0 => Some(VotingThreshold::SimpleMajority),
        1 => Some(VotingThreshold::Supermajority),
        2 => Some(VotingThreshold::Unanimous),
        _ => None,
    }
}

pub open spec fn threshold_index_of(t: VotingThreshold) -> u8 {
    match t {
        VotingThreshold::SimpleMajority => 0,
        VotingThreshold::Supermajority => 1,
        VotingThreshold::Unanimous => 2,
        VotingThreshold::Custom(_) => 3,
    }
}

pub fn threshold_to_index(t: VotingThreshold) -> (i: u8)
    ensures
        i == threshold_index_of(t),
{
    match t {
        VotingThreshold::SimpleMajority => 0,
        VotingThreshold::Supermajority => 1,
        VotingThreshold::Unanimous => 2,
        VotingThreshold::Custom(_) => 3,
    }
}

/// Percentage of decisive votes a threshold requires.
pub open spec fn required_percentage_of(t: VotingThreshold) -> u32 {
    match t {
        VotingThreshold::SimpleMajority => SIMPLE_MAJORITY_THRESHOLD,
        VotingThreshold::Supermajority => SUPERMAJORITY_THRESHOLD,
        VotingThreshold::Unanimous => 100,
        VotingThreshold::Custom(p) => p as u32,
    }
}

/// Running tally of a proposal's votes.
#[derive(Clone, Copy, Debug, PartialEq, Eq, Structural)]
pub struct VoteTally {
    pub ayes: u32,
    pub nays: u32,
    pub abstentions: u32,
    pub total_weight: u32,
    pub participation: u8,
}

/// Proposal lifecycle.
#[derive(Clone, Copy, Debug, PartialEq, Eq, Structural)]
pub enum ProposalStatus {
    Pending,
    Voting,
    Approved,
    Rejected,
    Cancelled,
    Executed,
}

/// A vote choice.
#[derive(Clone, Copy, Debug, PartialEq, Eq, Structural)]
pub enum VoteChoice {
    Aye,
    Nay,
    Abstain,
}

pub open spec fn vote_choice_of(i: u8) -> Option<VoteChoice> {
    if i == 0 {
        Some(VoteChoice::Aye)
    } else if i == 1 {
        Some(VoteChoice::Nay)
    } else if i == 2 {
        Some(VoteChoice::Abstain)
    } else {
        None
    }
}

pub fn vote_choice_from_index(i: u8) -> (c: Option<VoteChoice>)
    ensures
        c == vote_choice_of(i),
{
    match i {
        0 => Some(VoteChoice::Aye),
        1 => Some(VoteChoice::Nay),
        2 => Some(VoteChoice::Abstain),
        _ => None,
    }
}

pub open spec fn vote_choice_index_of(c: VoteChoice) -> u8 {
    match c {
        VoteChoice::Aye => 0,
        VoteChoice::Nay => 1,
        VoteChoice::Abstain => 2,
    }
}

/// A recorded vote on a proposal.
#[derive(Clone, Copy, Debug, PartialEq, Eq, Structural)]
pub struct Vote {
    pub vote: VoteChoice,
    pub weight: u32,
    pub conviction: u8,
    pub timestamp: u32,
}

/// Governance parameters that proposals may change.
#[derive(Clone, Copy, Debug, PartialEq, Eq, Structural)]
pub enum GovernanceParameter {
    VotingPeriod,
    LaunchPeriod,
    MinimumDeposit,
    SupermajorityThreshold,
    CouncilSize,
    EmergencyTimeout,
}

impl View for GovernanceParameter {
    type V = GovernanceParameter;

    open spec fn view(&self) -> GovernanceParameter {
        *self
    }
}

impl MapKey for GovernanceParameter {
    fn key_eq(&self, other: &Self) -> (b: bool) {
        *self == *other
    }

    fn key_clone(&self) -> (c: Self) {
        *self
    }
}

pub open spec fn governance_parameter_index_of(p: GovernanceParameter) -> u8 {
    match p {
        GovernanceParameter::VotingPeriod => 0,
        GovernanceParameter::LaunchPeriod => 1,
        GovernanceParameter::MinimumDeposit => 2,
        GovernanceParameter::SupermajorityThreshold => 3,
        GovernanceParameter::CouncilSize => 4,
        GovernanceParameter::EmergencyTimeout => 5,
    }
}

/// The inclusive range a new value of `p` must lie in.
pub open spec fn parameter_range(p: GovernanceParameter) -> (u32, u32) {
    match p {
        GovernanceParameter::VotingPeriod => (3600, 604800),
        GovernanceParameter::LaunchPeriod => (1800, 86400),
        GovernanceParameter::MinimumDeposit => (100, 1000000),
        GovernanceParameter::SupermajorityThreshold => (51, 100),
        GovernanceParameter::CouncilSize => (5, 50),
        GovernanceParameter::EmergencyTimeout => (3600, 604800),
    }
}

/// Actions an emergency proposal may carry.
#[derive(Clone, Copy, Debug, PartialEq, Eq, Structural)]
pub enum EmergencyActionType {
    ActivateEmergency,
    DeactivateEmergency,
    FreezeAccount,
    UnfreezeAccount,
    HaltGovernance,
    ResumeGovernance,
}

pub open spec fn emergency_action_type_index_of(a: EmergencyActionType) -> u8 {
    match a {
        EmergencyActionType::ActivateEmergency => 0,
        EmergencyActionType::DeactivateEmergency => 1,
        EmergencyActionType::FreezeAccount => 2,
        EmergencyActionType::UnfreezeAccount => 3,
        EmergencyActionType::HaltGovernance => 4,
        EmergencyActionType::ResumeGovernance => 5,
    }
}

/// What an approved proposal executes.
#[derive(Debug, PartialEq, Eq)]
pub enum ProposalAction {
    TreasurySpend { recipient: AccountId, amount: Balance },
    RuntimeUpgrade { code_hash: Vec<u8> },
    ParameterChange { parameter: GovernanceParameter, new_value: u32 },
    DepartmentAction { department: Department, call_data: Vec<u8> },
    EmergencyAction { action_type: EmergencyActionType },
}

pub open spec fn action_type_index_of(a: ProposalAction) -> u8 {
    match a {
        ProposalAction::TreasurySpend { .. } => 0,
        ProposalAction::RuntimeUpgrade { .. } => 1,
        ProposalAction::ParameterChange { .. } => 2,
        ProposalAction::DepartmentAction { .. } => 3,
        ProposalAction::EmergencyAction { .. } => 4,
    }
}

/// A department action, carried SCALE-encoded in a proposal's call data.
#[derive(Debug, PartialEq, Eq)]
pub enum DepartmentCall {
    SpendBudget { recipient: AccountId, amount: Balance },
    UpdatePolicy { policy_key: Vec<u8>, policy_value: Vec<u8> },
    NoOp,
}

/// A council or board member.
#[derive(Clone, Copy, Debug, PartialEq, Eq, Structural)]
pub struct CouncilMember {
    pub account: AccountId,
    pub role: BoardRole,
    pub term_end: BlockNumber,
    pub is_rotating: bool,
    pub community_rank: u32,
    pub pouw_contribution: u32,
    pub voting_weight: u32,
    pub term_start: BlockNumber,
    pub votes_received: u32,
    pub proposals_authored: u32,
    pub participation_rate: u8,
    pub consecutive_terms: u8,
}

/// A governance proposal.
#[derive(Debug, PartialEq, Eq)]
pub struct Proposal {
    pub id: u32,
    pub proposer: AccountId,
    pub title: Vec<u8>,
    pub description: Vec<u8>,
    pub proposal_type: ProposalType,
    pub threshold: VotingThreshold,
    pub deposit: Balance,
    pub voting_start: BlockNumber,
    pub voting_end: BlockNumber,
    pub vote_tally: VoteTally,
    pub status: ProposalStatus,
    pub is_emergency: bool,
    pub department: Option<Department>,
    pub district: Option<BelizeDistrict>,
    pub requires_cross_approval: bool,
    pub cross_approved_by: Vec<Department>,
    pub action: Option<ProposalAction>,
    pub executed_at: Option<BlockNumber>,
}

/// A district election.
#[derive(Clone, Copy, Debug, PartialEq, Eq, Structural)]
pub struct Election {
    pub id: BlockNumber,
    pub district: BelizeDistrict,
    pub seats: u32,
    pub registration_end: BlockNumber,
    pub voting_start: BlockNumber,
    pub voting_end: BlockNumber,
    pub status: ElectionStatus,
    pub total_votes: u32,
}

/// A registered election candidate.
#[derive(Debug, PartialEq, Eq)]
pub struct ElectionCandidate {
    pub account: AccountId,
    pub district: BelizeDistrict,
    pub election_id: BlockNumber,
    pub platform: Vec<u8>,
    pub votes: u32,
    pub registered_at: BlockNumber,
}

/// A vote delegation.
#[derive(Clone, Copy, Debug, PartialEq, Eq, Structural)]
pub struct VoteDelegation {
    pub delegator: AccountId,
    pub delegate: AccountId,
    pub created_at: BlockNumber,
    pub expires_at: BlockNumber,
    pub is_active: bool,
}

/// An amendment of a proposal's text.
#[derive(Debug, PartialEq, Eq)]
pub struct ProposalAmendment {
    pub proposal_id: u32,
    pub new_title: Option<Vec<u8>>,
    pub new_description: Option<Vec<u8>>,
    pub proposed_at: BlockNumber,
    pub is_applied: bool,
}

/// A referendum.
#[derive(Debug, PartialEq, Eq)]
pub struct Referendum {
    pub id: u32,
    pub creator: AccountId,
    pub title: Vec<u8>,
    pub description: Vec<u8>,
    pub options: Vec<Vec<u8>>,
    pub quorum_percentage: u8,
    pub voting_start: BlockNumber,
    pub voting_end: BlockNumber,
    pub vote_counts: Vec<u32>,
    pub total_votes: u32,
    pub status: ReferendumStatus,
    pub district: Option<BelizeDistrict>,
    pub winning_option: Option<u8>,
}

/// Referendum lifecycle.
#[derive(Clone, Copy, Debug, PartialEq, Eq, Structural)]
pub enum ReferendumStatus {
    Active,
    Passed,
    Failed,
    Cancelled,
}

/// A referendum vote record.
#[derive(Debug, PartialEq, Eq)]
pub struct ReferendumVote {
    pub voter: Vec<u8>,
    pub option_index: u8,
    pub voted_at: u32,
    pub weight: u32,
}

/// A district's fiscal-year budget.
#[derive(Debug, PartialEq, Eq)]
pub struct DistrictBudget {
    pub district: BelizeDistrict,
    pub allocated: Balance,
    pub spent: Balance,
    pub proposals_funded: Vec<u32>,
    pub fiscal_year_start: BlockNumber,
    pub fiscal_year_end: BlockNumber,
    pub is_active: bool,
}

/// A treasury spend awaiting board approvals.
#[derive(Debug, PartialEq, Eq)]
pub struct TreasurySpendProposal {
    pub id: u32,
    pub proposer: AccountId,
    pub recipient: AccountId,
    pub amount: Balance,
    pub description: Vec<u8>,
    pub district: Option<BelizeDistrict>,
    pub approvals: Vec<AccountId>,
    pub threshold: u8,
    pub created_at: BlockNumber,
    pub expires_at: BlockNumber,
    pub executed: bool,
}

/// Priority levels of the proposal queue.
#[derive(Clone, Copy, Debug, PartialEq, Eq, Structural)]
pub enum ProposalPriority {
    Low,
    Normal,
    High,
    Critical,
}

impl View for ProposalPriority {
    type V = ProposalPriority;

    open spec fn view(&self) -> ProposalPriority {
        *self
    }
}

impl MapKey for ProposalPriority {
    fn key_eq(&self, other: &Self) -> (b: bool) {
        *self == *other
    }

    fn key_clone(&self) -> (c: Self) {
        *self
    }
}

pub open spec fn priority_value_of(p: ProposalPriority) -> u8 {
    match p {
        ProposalPriority::Low => 1,
        ProposalPriority::Normal => 2,
        ProposalPriority::High => 3,
        ProposalPriority::Critical => 4,
    }
}

impl ProposalPriority {
    /// 1 for Low up to 4 for Critical.
    pub fn to_value(&self) -> (v: u8)
        ensures
            v == priority_value_of(*self),
    {
        match self {
            ProposalPriority::Low => 1,
            ProposalPriority::Normal => 2,
            ProposalPriority::High => 3,
            ProposalPriority::Critical => 4,
        }
    }
}

/// Emergency classification.
#[derive(Clone, Copy, Debug, PartialEq, Eq, Structural)]
pub enum EmergencyType {
    Hurricane,
    HealthCrisis,
    EconomicCrisis,
    SecurityThreat,
    InfrastructureFailure,
    Other,
}

pub open spec fn emergency_type_index_of(t: EmergencyType) -> u8 {
    match t {
        EmergencyType::Hurricane => 0,
        EmergencyType::HealthCrisis => 1,
        EmergencyType::EconomicCrisis => 2,
        EmergencyType::SecurityThreat => 3,
        EmergencyType::InfrastructureFailure => 4,
        EmergencyType::Other => 5,
    }
}

/// Indices 0 to 4 name a specific emergency; any other index is `Other`.
pub open spec fn emergency_type_of(i: u8) -> EmergencyType {
    if i == 0 {
        EmergencyType::Hurricane
    } else if i == 1 {
        EmergencyType::HealthCrisis
    } else if i == 2 {
        EmergencyType::EconomicCrisis
    } else if i == 3 {
        EmergencyType::SecurityThreat
    } else if i == 4 {
        EmergencyType::InfrastructureFailure
    } else {
        EmergencyType::Other
    }
}

impl EmergencyType {
    pub fn to_index(&self) -> (i: u8)
        ensures
            i == emergency_type_index_of(*self),
    {
        match self {
            EmergencyType::Hurricane => 0,
            EmergencyType::HealthCrisis => 1,
            EmergencyType::EconomicCrisis => 2,
            EmergencyType::SecurityThreat => 3,
            EmergencyType::InfrastructureFailure => 4,
            EmergencyType::Other => 5,
        }
    }

    pub fn from_index(i: u8) -> (t: EmergencyType)
        ensures
            t == emergency_type_of(i),
    {
        match i {
            0 => EmergencyType::Hurricane,
            1 => EmergencyType::HealthCrisis,
            2 => EmergencyType::EconomicCrisis,
            3 => EmergencyType::SecurityThreat,
            4 => EmergencyType::InfrastructureFailure,
            _ => EmergencyType::Other,
        }
    }
}

/// Jaguar Mode: the national emergency status.
#[derive(Debug, PartialEq, Eq)]
pub struct EmergencyStatus {
    pub active: bool,
    pub emergency_type: EmergencyType,
    pub description: Vec<u8>,
    pub declared_at: BlockNumber,
    pub expires_at: Option<BlockNumber>,
    pub declared_by: Option<[u8; 32]>,
    pub is_pending: bool,
    pub veto_window_ends_at: Option<BlockNumber>,
}

} // verus!
