//! Origins, errors and events of the governance pallet.
use vstd::prelude::*;

use crate::types::{AccountId, Balance, BlockNumber};

verus! {

/// Who dispatched a call.
#[derive(Clone, Copy, Debug, PartialEq, Eq, Structural)]
pub enum Origin {
    Root,
    Signed(AccountId),
    Unsigned,
}

/// Why a call was refused. Every refusal leaves the state as it was.
#[derive(Clone, Copy, Debug, PartialEq, Eq, Structural)]
pub enum Error {
    /// The origin is not the one the call requires.
    BadOrigin,
    /// The currency refused to reserve, or to transfer, the required amount.
    CurrencyFailure,
    /// The runtime refused to install the code.
    SetCodeFailure,
    ProposalNotFound,
    NotCouncilMember,
    NotCompliant,
    TooManyApprovals,
    TooManyProposals,
    VotingPeriodEnded,
    VotingPeriodNotStarted,
    AlreadyVoted,
    InsufficientDeposit,
    InvalidThreshold,
    CouncilSizeLimits,
    InsufficientVotingWeight,
    EmergencyTypeRestrictions,
    Unauthorized,
    InvalidProposalType,
    InsufficientCompliance,
    RestrictedAccount,
    NotDepartmentManager,
    DepartmentNotFound,
    CrossApprovalNotRequired,
    DepartmentAlreadyApproved,
    InvalidDepartment,
    TooManyCrossApprovals,
    BoardRoleLimitExceeded,
    InvalidBoardRole,
    TermNotExpired,
    MemberNotFound,
    NoActiveElection,
    AlreadyVotedInElection,
    NomineeNotFound,
    InvalidTermDuration,
    ProposalNotApproved,
    AlreadyExecuted,
    NoActionDefined,
    InsufficientTreasuryBalance,
    TreasurySpendCapExceeded,
    RuntimeCodeTooLarge,
    InvalidParameterValue,
    DepartmentActionFailed,
    EmergencyActionNotAllowed,
    InsufficientDepartmentBalance,
    InvalidActionType,
    ElectionNotFound,
    NotInRegistrationPhase,
    NotInVotingPhase,
    CandidateAlreadyRegistered,
    TooManyCandidates,
    AlreadyVotedInDistrictElection,
    CandidateNotFound,
    ElectionAlreadyActive,
    VotingPeriodNotEnded,
    ElectionAlreadyFinalized,
    InvalidDistrict,
    DistrictRequired,
    NotDistrictResident,
    PlatformTooLong,
    InsufficientCandidates,
    CannotDelegateToSelf,
    DelegationAlreadyExists,
    NoDelegationFound,
    TooManyDelegators,
    NotProposalAuthor,
    AmendmentAlreadyExists,
    AmendmentNotFound,
    NoAmendmentProvided,
    CannotAmendAfterVoting,
    RewardAlreadyClaimed,
    NoRewardAvailable,
    InsufficientTreasuryForRewards,
    PriorityQueueFull,
    InvalidPriority,
    EmergencyAlreadyActive,
    NoActiveEmergency,
    DescriptionTooLong,
    ReferendumNotFound,
    ReferendumVotingEnded,
    ReferendumVotingNotStarted,
    AlreadyVotedOnReferendum,
    TooManyOptions,
    NoOptionsProvided,
    InvalidQuorum,
    ReferendumTitleTooLong,
    ReferendumDescriptionTooLong,
    InvalidOptionIndex,
    ReferendumNotFinalized,
    ReferendumAlreadyFinalized,
    DistrictBudgetNotFound,
    DistrictBudgetAlreadyExists,
    InsufficientDistrictBudget,
    TreasuryProposalNotFound,
    TreasuryProposalAlreadyExecuted,
    TreasuryProposalExpired,
    AlreadyApprovedTreasuryProposal,
    InsufficientTreasuryApprovals,
    TreasuryDescriptionTooLong,
    InvalidFiscalYearPeriod,
    InsufficientNationalTreasury,
    TransferExceedsSourceBudget,
    NotInEmergencyMode,
    NotEmergencyProposal,
    EmergencyProposalExpired,
    InsufficientSuperMajority,
    VetoWindowNotExpired,
    EmergencyStillPending,
    AlreadyVetoed,
    NoPendingEmergency,
    ParameterKeyTooLong,
    VoteAlreadyCommitted,
    CommitmentHashMismatch,
    NoCommitmentFound,
    VoteAlreadyRevealedViaCommit,
    RuntimeUpgradeNotPending,
    RuntimeCodeHashMismatch,
    InvalidCallData,
    ProposalCooldownActive,
    EnactmentDelayNotPassed,
    ConsecutiveTermLimitReached,
    BehaviorCooldownActive,
    ConstitutionalRatificationRequired,
    NotHouseMember,
    AlreadyRatifiedByHouse,
    NotConstitutionalProposal,
    ProposalNotYetApproved,
    ParameterConstitutionallyLocked,
    ParameterAlreadyLocked,
    ParameterNotLocked,
}

/// What the pallet reports of each change.
#[allow(inconsistent_fields)]
#[derive(Debug, PartialEq, Eq)]
pub enum Event {
    ProposalSubmitted { proposal_id: u32, proposer: AccountId, proposal_type_index: u8, threshold_index: u8 },
    VoteCast { proposal_id: u32, voter: AccountId, vote_index: u8, weight: u32 },
    ProposalApproved { proposal_id: u32, ayes: u32, nays: u32, abstentions: u32 },
    ProposalRejected { proposal_id: u32, ayes: u32, nays: u32, abstentions: u32 },
    CommunityRankUpdated { account: AccountId, old_rank: u32, new_rank: u32 },
    PoUWContributionUpdated { account: AccountId, old_contribution: u32, new_contribution: u32 },
    CouncilOverrideExecuted { proposal_id: u32, override_reason: Vec<u8> },
    DepartmentManagerSet { department_index: u8, manager: AccountId },
    DepartmentProposalSubmitted { proposal_id: u32, department_index: u8, proposer: AccountId },
    CrossDepartmentApproved { proposal_id: u32, department_index: u8, approver: AccountId },
    BoardMemberAdded { member: AccountId, role_index: u8, term_end: BlockNumber },
    BoardMemberRemoved { member: AccountId, role_index: u8, reason: Vec<u8> },
    DelegateNominated { nominee: AccountId, nominator: AccountId },
    DelegateVoteCast { voter: AccountId, nominee: AccountId, weight: u32 },
    ProposalExecuted { proposal_id: u32, executor: AccountId, action_type: u8 },
    RuntimeUpgradeExecuted { proposal_id: u32, code_hash: [u8; 32] },
    VoteCommitted { proposal_id: u32, voter: AccountId },
    VoteRevealed { proposal_id: u32, voter: AccountId, vote_index: u8, weight: u32 },
    RuntimeUpgradeApplied { code_hash: [u8; 32] },
    ParameterChanged { parameter_index: u8, old_value: u32, new_value: u32 },
    DepartmentActionExecuted { proposal_id: u32, department_index: u8 },
    EmergencyActionExecuted { proposal_id: u32, action_type_index: u8 },
    DepartmentFundsAllocated { department_index: u8, amount: Balance, from_proposal: u32 },
    DistrictElectionStarted {
        election_id: BlockNumber,
        district_index: u8,
        seats: u32,
        registration_end: BlockNumber,
        voting_end: BlockNumber,
    },
    CandidateRegistered { election_id: BlockNumber, candidate: AccountId, district_index: u8 },
    ElectionVoteCast {
        election_id: BlockNumber,
        voter: AccountId,
        candidate: AccountId,
        district_index: u8,
    },
    DistrictElectionFinalized {
        election_id: BlockNumber,
        district_index: u8,
        winners: Vec<AccountId>,
        total_votes: u32,
    },
    CouncilMemberElectedFromDistrict {
        account: AccountId,
        district_index: u8,
        votes_received: u32,
        term_end: BlockNumber,
    },
    VoteDelegationCreated { delegator: AccountId, delegate: AccountId, expires_at: Option<BlockNumber> },
    VoteDelegationRevoked { delegator: AccountId, delegate: AccountId },
    ProposalAmendmentSubmitted { proposal_id: u32, proposer: AccountId },
    RewardClaimed { account: AccountId, reward_type: u8, amount: Balance },
    ProposalQueuedWithPriority { proposal_id: u32, priority_index: u8 },
    JaguarModeDeactivated,
    EmergencyPendingActivation {
        emergency_type_index: u8,
        description: Vec<u8>,
        veto_window_ends_at: BlockNumber,
    },
    EmergencyVetoed { who: AccountId, vetoes_so_far: u32 },
    EmergencyFinalizedAfterVetoWindow,
    ReferendumCreated {
        referendum_id: u32,
        creator: AccountId,
        title: Vec<u8>,
        quorum_percentage: u8,
        district_index: Option<u8>,
    },
    ReferendumVoteCast { referendum_id: u32, voter: AccountId, option_index: u8, weight: u32 },
    ReferendumPassed {
        referendum_id: u32,
        winning_option_index: u8,
        total_votes: u32,
        participation_percentage: u8,
    },
    ReferendumFailed {
        referendum_id: u32,
        total_votes: u32,
        participation_percentage: u8,
        required_quorum: u8,
    },
    DistrictBudgetAllocated {
        district_index: u8,
        amount: Balance,
        fiscal_year_start: BlockNumber,
        fiscal_year_end: BlockNumber,
    },
    TreasurySpendProposed {
        proposal_id: u32,
        proposer: AccountId,
        recipient: AccountId,
        amount: Balance,
        threshold: u8,
    },
    TreasurySpendApproved { proposal_id: u32, approver: AccountId, approvals_count: u8, threshold: u8 },
    TreasurySpendExecuted {
        proposal_id: u32,
        recipient: AccountId,
        amount: Balance,
        district_index: Option<u8>,
    },
    DistrictBudgetTransferred {
        from_district_index: u8,
        to_district_index: u8,
        amount: Balance,
        reason: Vec<u8>,
    },
    DistrictBudgetSpent { district_index: u8, proposal_id: u32, amount: Balance, remaining: Balance },
    EmergencyProposalExecuted { proposal_id: u32, emergency_type_index: u8, approval_percentage: u32 },
    ReferendumFastTracked {
        referendum_id: u32,
        original_deadline: BlockNumber,
        new_deadline: BlockNumber,
        emergency_type_index: u8,
    },
    ProposalEmergencyOverride {
        proposal_id: u32,
        executed: bool,
        overridden_by: [u8; 32],
        justification: Vec<u8>,
    },
    ChainParameterUpdated { key: Vec<u8>, old_value: Option<u64>, new_value: u64 },
    CouncilTermAutoExpired { account: AccountId },
    TermExpiryOverflow { block: BlockNumber, remaining: u32 },
    ProposalEnqueued { proposal_id: u32, execute_at: BlockNumber },
    LargeHolderParticipationPenalty { who: AccountId, new_multiplier: u8 },
    QuarterlyParticipationReset { checked_count: u32 },
    ExitProofGenerated { account: AccountId, proof_hash: [u8; 32], valid_until: BlockNumber },
    ConstitutionalRatificationCast {
        proposal_id: u32,
        ratifier: AccountId,
        house: u8,
        technical_approved: bool,
        governance_approved: bool,
    },
    ConstitutionalRatificationComplete { proposal_id: u32 },
    ParameterLocked { key: Vec<u8> },
    ParameterUnlocked { key: Vec<u8> },
}

} // verus!
