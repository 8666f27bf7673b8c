//! A verified implementation of the two-phase-commit (2PC) atomic
//! commitment protocol.
//!
//! The protocol follows the classical presentation of atomic commitment: a
//! coordinator collects votes from every participant and decides commit
//! exactly when all of them, and the coordinator itself, vote yes. An
//! epoch counter extends the protocol to continuous operation, agreeing on
//! a sequence of values; a decision-request subprotocol lets a participant
//! that timed out in its uncertainty period learn the decision from a peer.

use vstd::prelude::*;

mod coordinator_action;
mod coordinator_algorithm;
mod coordinator_context;
mod coordinator_event;
mod coordinator_message;
mod laws;
mod participant_action;
mod participant_algorithm;
mod participant_context;
mod participant_event;
mod participant_message;
mod unified_action;
mod unified_algorithm;
mod unified_context;
mod unified_context_builder;
mod unified_event;
mod unified_message;
mod unified_role;
mod unified_state;

pub use coordinator_action::lifts_coordinator_action;
pub use laws::abort_recorded_before;
pub use laws::all_yes;
pub use laws::armed_alarm_after;
pub use laws::commit_recorded_before;
pub use laws::coordinator_update_successor;
pub use laws::coordinator_well_formed;
pub use laws::is_abort_send;
pub use laws::is_unified_abort_send;
pub use laws::is_unified_commit_send;
pub use laws::is_commit_send;
pub use laws::is_successor_update;
pub use laws::lemma_advance_sets_last_commit_epoch;
pub use laws::lemma_alarm_superseded;
pub use laws::lemma_commit_update_requires_unanimous_yes;
pub use laws::lemma_coordinator_decision_request_idempotent;
pub use laws::lemma_coordinator_epoch_filter;
pub use laws::lemma_coordinator_epoch_monotone;
pub use laws::lemma_coordinator_no_decision_flip;
pub use laws::lemma_coordinator_preserves_well_formed;
pub use laws::lemma_coordinator_updates;
pub use laws::lemma_idle_seed_well_formed;
pub use laws::lemma_decision_send_ordering;
pub use laws::lemma_participant_decision_request_idempotent;
pub use laws::lemma_participant_epoch_filter;
pub use laws::lemma_participant_updates_preserve_record;
pub use laws::lemma_unified_decision_send_ordering;
pub use laws::process_listed_or_coordinator;
pub use laws::role_state_decided_abort;
pub use laws::role_state_decided_commit;
pub use laws::unified_abort_recorded_before;
pub use laws::unified_commit_recorded_before;
pub use laws::same_decision_request_answer;
pub use laws::same_participant_decision_request_answer;
pub use coordinator_algorithm::abort_actions;
pub use coordinator_algorithm::abort_message_sends;
pub use coordinator_algorithm::ack_alarm_outcome;
pub use coordinator_algorithm::ack_timeout_expired;
pub use coordinator_algorithm::advance_epoch_actions;
pub use coordinator_algorithm::advance_epoch_view;
pub use coordinator_algorithm::all_acked;
pub use coordinator_algorithm::all_voted;
pub use coordinator_algorithm::commit_actions;
pub use coordinator_algorithm::coordinator_alarm_result;
pub use coordinator_algorithm::coordinator_decision_request_actions;
pub use coordinator_algorithm::coordinator_dropped_only;
pub use coordinator_algorithm::coordinator_event_ensures;
pub use coordinator_algorithm::coordinator_vote_result;
pub use coordinator_algorithm::decision_ack_result;
pub use coordinator_algorithm::decision_answer;
pub use coordinator_algorithm::is_coordinator_dropped;
pub use coordinator_algorithm::is_coordinator_update;
pub use coordinator_algorithm::first_participant_match;
pub use coordinator_algorithm::is_first_participant_match;
pub use coordinator_algorithm::lemma_first_participant_match;
pub use coordinator_algorithm::lemma_first_participant_match_unique;
pub use coordinator_algorithm::is_invalid_state_error;
pub use coordinator_algorithm::no_participant_match;
pub use coordinator_algorithm::participants_reset;
pub use coordinator_algorithm::some_voted_no;
pub use coordinator_algorithm::start_actions;
pub use coordinator_algorithm::vote_response_actions;
pub use coordinator_algorithm::vote_timeout_expired;
pub use coordinator_algorithm::voting_alarm_outcome;
pub use coordinator_algorithm::wait_for_ack_view;
pub use coordinator_algorithm::DecisionAnswer;
pub use coordinator_algorithm::singleton_vec;
pub use coordinator_algorithm::CoordinatorAlgorithm;
pub use coordinator_algorithm::ACK_TIMEOUT_SECONDS;
pub use coordinator_algorithm::VOTE_TIMEOUT_SECONDS;
pub use coordinator_action::lifts_coordinator_notification;
pub use coordinator_action::CoordinatorAction;
pub use coordinator_action::CoordinatorActionNotification;
pub use coordinator_context::clone_participants;
pub use coordinator_context::CoordinatorContext;
pub use coordinator_context::CoordinatorContextView;
pub use coordinator_context::CoordinatorState;
pub use coordinator_context::Participant;
pub use coordinator_event::CoordinatorEvent;
pub use coordinator_message::CoordinatorMessage;
pub use participant_action::lifts_participant_action;
pub use participant_action::lifts_participant_notification;
pub use participant_action::ParticipantAction;
pub use participant_action::ParticipantActionNotification;
pub use participant_algorithm::abort_message_actions;
pub use participant_algorithm::commit_message_actions;
pub use participant_algorithm::decision_request_resend;
pub use participant_algorithm::decision_request_sends;
pub use participant_algorithm::decision_timeout_expired;
pub use participant_algorithm::is_participant_dropped;
pub use participant_algorithm::is_participant_update;
pub use participant_algorithm::participant_alarm_result;
pub use participant_algorithm::participant_decision_request_actions;
pub use participant_algorithm::participant_dropped_only;
pub use participant_algorithm::participant_event_ensures;
pub use participant_algorithm::participant_vote_result;
pub use participant_algorithm::participant_yes_vote_actions;
pub use participant_algorithm::process_listed;
pub use participant_algorithm::vote_request_actions;
pub use participant_algorithm::voted_alarm_outcome;
pub use participant_algorithm::ParticipantAlgorithm;
pub use participant_algorithm::DECISION_TIMEOUT_SECONDS;
pub use participant_context::clone_processes;
pub use participant_context::ParticipantContext;
pub use participant_context::ParticipantContextView;
pub use participant_context::ParticipantState;
pub use participant_event::ParticipantEvent;
pub use participant_message::ParticipantMessage;
pub use unified_action::TwoPhaseCommitAction;
pub use unified_action::TwoPhaseCommitActionNotification;
pub use unified_algorithm::lifts_coordinator_actions;
pub use unified_algorithm::lifts_coordinator_result;
pub use unified_algorithm::lifts_participant_actions;
pub use unified_algorithm::lifts_participant_result;
pub use unified_algorithm::unified_event_ensures;
pub use unified_algorithm::TwoPhaseCommitAlgorithm;
pub use unified_context::TwoPhaseCommitContext;
pub use unified_context::TwoPhaseCommitContextView;
pub use unified_context_builder::TwoPhaseCommitContextBuilder;
pub use unified_event::TwoPhaseCommitEvent;
pub use unified_message::TwoPhaseCommitMessage;
pub use unified_role::TwoPhaseCommitRoleContext;
pub use unified_role::TwoPhaseCommitRoleContextView;
pub use unified_state::TwoPhaseCommitState;

verus! {

/// The scope of a single run through the algorithm.
///
/// An epoch starts with the coordinator requesting votes for a specific
/// value and ends with a decision to commit or abort. In each successful
/// iteration the epoch increases by exactly 1.
pub type Epoch = u64;

} // verus!
