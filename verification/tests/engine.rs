use dao_sdk::dao::{submit, vote};
use dao_sdk::lifecycle::{executing_ids, finish_execution};
use dao_sdk::{
    ChangeProposalStateArg, DaoBasic, DaoCustomFn, DaoError, Proposal, ProposalArg, ProposalState,
    ProposalStore, Votes, VotesArg,
};
use ic_cdk::export::Principal;
use std::cell::RefCell;
use std::collections::HashMap;

/// A host whose members are listed, and whose hook fails for the proposals
/// whose title is in `failing`, with the reason given there.
struct Host {
    members: Vec<Principal>,
    oracle_down: bool,
    failing: Vec<(String, String)>,
    executed: RefCell<Vec<u64>>,
}

impl Host {
    fn with_members(members: Vec<Principal>) -> Host {
        Host {
            members,
            oracle_down: false,
            failing: Vec::new(),
            executed: RefCell::new(Vec::new()),
        }
    }
}

impl DaoCustomFn for Host {
    fn is_member(&self, member: Principal) -> Result<bool, String> {
        if self.oracle_down {
            return Err(String::from("oracle unreachable"));
        }
        Ok(self.members.contains(&member))
    }

    fn handle_proposal(&self, proposal: &Proposal) -> Result<(), String> {
        self.executed.borrow_mut().push(proposal.id);
        for (title, reason) in self.failing.iter() {
            if *title == proposal.title {
                return Err(reason.clone());
            }
        }
        Ok(())
    }
}

fn alice() -> Principal {
    Principal::from_slice(&[1, 2, 3])
}

fn bob() -> Principal {
    Principal::from_slice(&[1, 2, 4])
}

fn carol() -> Principal {
    Principal::from_slice(&[9])
}

fn mallory() -> Principal {
    Principal::anonymous()
}

fn arg(proposer: Principal, title: &str, end_time: u64) -> ProposalArg {
    ProposalArg {
        proposer,
        title: String::from(title),
        content: String::from("content of ") + title,
        property: None,
        end_time,
    }
}

fn dao() -> DaoBasic<Host> {
    DaoBasic::new(Host::with_members(vec![alice(), bob(), carol()]))
}

fn change(id: u64, state: ProposalState) -> ChangeProposalStateArg {
    ChangeProposalStateArg { id, state }
}

fn state_of(dao: &DaoBasic<Host>, id: u64) -> ProposalState {
    dao.get_proposal(id).unwrap().proposal_state
}

/// Drives proposal `id`, whose window closed at or before 1000, to `Executing`.
fn to_executing(dao: &mut DaoBasic<Host>, id: u64) {
    assert_eq!(dao.change_proposal_state(change(id, ProposalState::Accepted), 1000), Ok(()));
    assert_eq!(dao.change_proposal_state(change(id, ProposalState::Executing), 1000), Ok(()));
}

#[test]
fn test_get_proposal_err() {
    let dao_basic = dao();
    assert_eq!(dao_basic.get_proposal(1).is_err(), true);
    assert_eq!(dao_basic.get_proposal(1).unwrap_err(), DaoError::NotFound);
}

#[test]
fn test_get_proposal_ok() {
    let mut dao_basic = dao();
    let new_proposal = ProposalArg {
        proposer: alice(),
        title: "aaa".to_owned(),
        content: "aaa".to_owned(),
        property: None,
        end_time: 11111,
    };
    let _ = dao_basic.proposal(new_proposal, 5);
    assert_eq!(dao_basic.get_proposal(1).is_ok(), true);
}

#[test]
fn new_engine_is_empty_and_starts_at_one() {
    let dao = dao();
    assert_eq!(dao.store.next_id, 1);
    assert!(dao.proposal_list().is_empty());
    assert!(executing_ids(&dao.store).is_empty());
}

#[test]
fn proposal_stores_what_was_handed_in() {
    let mut dao = dao();
    let mut property = HashMap::new();
    property.insert(String::from("budget"), String::from("100"));
    let submitted = dao
        .proposal(
            ProposalArg {
                proposer: bob(),
                title: String::from("fund the library"),
                content: String::from("buy books"),
                property: Some(property.clone()),
                end_time: 700,
            },
            42,
        )
        .unwrap();
    assert_eq!(submitted.id, 1);
    assert_eq!(submitted.proposer, bob());
    assert_eq!(submitted.title, "fund the library");
    assert_eq!(submitted.content, "buy books");
    assert_eq!(submitted.proposal_state, ProposalState::Open);
    assert!(submitted.vote_data.is_empty());
    assert_eq!(submitted.property, Some(property.clone()));
    assert_eq!(submitted.end_time, 700);
    assert_eq!(submitted.timestamp, 42);

    let stored = dao.get_proposal(1).unwrap();
    assert_eq!(stored.id, 1);
    assert_eq!(stored.proposer, bob());
    assert_eq!(stored.title, "fund the library");
    assert_eq!(stored.content, "buy books");
    assert_eq!(stored.proposal_state, ProposalState::Open);
    assert!(stored.vote_data.is_empty());
    assert_eq!(stored.property, Some(property));
    assert_eq!(stored.end_time, 700);
    assert_eq!(stored.timestamp, 42);
    assert_eq!(dao.store.next_id, 2);
}

#[test]
fn submissions_get_consecutive_ids_without_gaps() {
    let mut dao = dao();
    let members = [alice(), bob(), carol(), alice(), carol()];
    let mut ids = Vec::new();
    for (i, member) in members.iter().enumerate() {
        let p = dao.proposal(arg(*member, &format!("motion {}", i), 10), i as u64).unwrap();
        ids.push(p.id);
    }
    assert_eq!(ids, vec![1, 2, 3, 4, 5]);
    assert_eq!(dao.store.next_id, 6);
    let listed: Vec<u64> = dao.proposal_list().iter().map(|p| p.id).collect();
    assert_eq!(listed, vec![1, 2, 3, 4, 5]);
    let titles: Vec<String> = dao.proposal_list().iter().map(|p| p.title.clone()).collect();
    assert_eq!(titles, vec!["motion 0", "motion 1", "motion 2", "motion 3", "motion 4"]);
}

#[test]
fn refused_submission_uses_no_id() {
    let mut dao = dao();
    assert_eq!(dao.proposal(arg(mallory(), "x", 10), 1).unwrap_err(), DaoError::NotMember);
    assert_eq!(dao.proposal(arg(alice(), "first", 10), 2).unwrap().id, 1);
    assert_eq!(dao.proposal(arg(mallory(), "y", 10), 3).unwrap_err(), DaoError::NotMember);
    assert_eq!(dao.proposal(arg(bob(), "second", 10), 4).unwrap().id, 2);
    assert_eq!(dao.proposal_list().len(), 2);
}

#[test]
fn non_member_cannot_submit_and_changes_nothing() {
    let mut dao = dao();
    dao.proposal(arg(alice(), "kept", 10), 1).unwrap();
    let r = dao.proposal(arg(mallory(), "intruder", 10), 2);
    assert_eq!(r.unwrap_err(), DaoError::NotMember);
    assert_eq!(dao.store.next_id, 2);
    assert_eq!(dao.proposal_list().len(), 1);
    assert_eq!(dao.get_proposal(2).unwrap_err(), DaoError::NotFound);
    assert_eq!(dao.get_proposal(1).unwrap().title, "kept");
}

#[test]
fn non_member_cannot_vote_and_changes_nothing() {
    let mut dao = dao();
    dao.proposal(arg(alice(), "p", 10), 1).unwrap();
    let r = dao.vote(VotesArg { id: 1, caller: mallory(), vote: Votes::Yes(1_000) });
    assert_eq!(r, Err(DaoError::NotMember));
    assert!(dao.get_proposal(1).unwrap().vote_data.is_empty());
    let t = dao.tally(1).unwrap();
    assert_eq!((t.yes, t.no), (0, 0));
}

#[test]
fn non_member_voting_on_absent_proposal_is_not_member() {
    let mut dao = dao();
    let r = dao.vote(VotesArg { id: 77, caller: mallory(), vote: Votes::No(1) });
    assert_eq!(r, Err(DaoError::NotMember));
}

#[test]
fn oracle_failure_is_passed_on_as_host_error() {
    let mut host = Host::with_members(vec![alice()]);
    host.oracle_down = true;
    let mut dao = DaoBasic::new(host);
    let r = dao.proposal(arg(alice(), "p", 10), 1);
    assert_eq!(r.unwrap_err(), DaoError::HostError(String::from("oracle unreachable")));
    assert_eq!(dao.store.next_id, 1);
    assert!(dao.proposal_list().is_empty());
    let r = dao.vote(VotesArg { id: 1, caller: alice(), vote: Votes::Yes(1) });
    assert_eq!(r, Err(DaoError::HostError(String::from("oracle unreachable"))));
}

#[test]
fn submit_takes_the_oracle_answer_as_given() {
    let mut dao = dao();
    assert_eq!(
        submit(&mut dao.store, Ok(false), arg(alice(), "a", 1), 0).unwrap_err(),
        DaoError::NotMember
    );
    assert_eq!(
        submit(&mut dao.store, Err(String::from("boom")), arg(alice(), "a", 1), 0).unwrap_err(),
        DaoError::HostError(String::from("boom"))
    );
    assert_eq!(dao.store.next_id, 1);
    let p = submit(&mut dao.store, Ok(true), arg(mallory(), "a", 1), 9).unwrap();
    assert_eq!(p.id, 1);
    assert_eq!(p.proposer, mallory());
    assert_eq!(p.timestamp, 9);
}

#[test]
fn cast_vote_takes_the_oracle_answer_as_given() {
    let mut dao = dao();
    dao.proposal(arg(alice(), "p", 10), 1).unwrap();
    let ballot = || VotesArg { id: 1, caller: mallory(), vote: Votes::Yes(3) };
    assert_eq!(vote(&mut dao.store, Ok(false), ballot()), Err(DaoError::NotMember));
    assert_eq!(
        vote(&mut dao.store, Err(String::from("boom")), ballot()),
        Err(DaoError::HostError(String::from("boom")))
    );
    assert!(dao.get_proposal(1).unwrap().vote_data.is_empty());
    assert_eq!(vote(&mut dao.store, Ok(true), ballot()), Ok(()));
    assert_eq!(dao.get_proposal(1).unwrap().vote_data, vec![(mallory(), Votes::Yes(3))]);
}

#[test]
fn submit_refuses_an_id_that_is_in_use() {
    let mut store = ProposalStore::new();
    let mut seed = DaoBasic::new(Host::with_members(vec![alice()]));
    let mut p = seed.proposal(arg(alice(), "squatter", 10), 1).unwrap();
    p.id = 1;
    store.insert(p).unwrap();
    let mut dao = DaoBasic { store, custom_fn: Host::with_members(vec![alice()]) };
    assert_eq!(dao.store.next_id, 1);
    let r = dao.proposal(arg(alice(), "newcomer", 10), 2);
    assert_eq!(r.unwrap_err(), DaoError::DuplicateId);
    assert_eq!(dao.store.next_id, 1);
    assert_eq!(dao.get_proposal(1).unwrap().title, "squatter");
    assert_eq!(dao.proposal_list().len(), 1);
}

#[test]
fn absent_id_is_not_found_everywhere() {
    let mut dao = dao();
    dao.proposal(arg(alice(), "p", 10), 1).unwrap();
    for id in [0u64, 2, 3, u64::MAX] {
        assert_eq!(dao.get_proposal(id).unwrap_err(), DaoError::NotFound);
        assert_eq!(
            dao.vote(VotesArg { id, caller: alice(), vote: Votes::Yes(1) }),
            Err(DaoError::NotFound)
        );
        assert_eq!(
            dao.change_proposal_state(change(id, ProposalState::Accepted), 100),
            Err(DaoError::NotFound)
        );
        assert_eq!(finish_execution(&mut dao.store, id, Ok(())), Err(DaoError::NotFound));
        assert_eq!(dao.tally(id).unwrap_err(), DaoError::NotFound);
    }
    assert_eq!(dao.proposal_list().len(), 1);
    assert_eq!(state_of(&dao, 1), ProposalState::Open);
}

#[test]
fn second_vote_by_same_identity_is_refused() {
    let mut dao = dao();
    dao.proposal(arg(alice(), "p", 10), 1).unwrap();
    assert_eq!(dao.vote(VotesArg { id: 1, caller: bob(), vote: Votes::Yes(7) }), Ok(()));
    assert_eq!(
        dao.vote(VotesArg { id: 1, caller: bob(), vote: Votes::No(100) }),
        Err(DaoError::AlreadyVoted)
    );
    assert_eq!(
        dao.vote(VotesArg { id: 1, caller: bob(), vote: Votes::Yes(8) }),
        Err(DaoError::AlreadyVoted)
    );
    assert_eq!(dao.get_proposal(1).unwrap().vote_data, vec![(bob(), Votes::Yes(7))]);
    let t = dao.tally(1).unwrap();
    assert_eq!((t.yes, t.no), (7, 0));
}

#[test]
fn one_identity_may_vote_on_several_proposals() {
    let mut dao = dao();
    dao.proposal(arg(alice(), "roof", 10), 1).unwrap();
    dao.proposal(arg(alice(), "fence", 10), 1).unwrap();
    assert_eq!(dao.vote(VotesArg { id: 1, caller: bob(), vote: Votes::Yes(7) }), Ok(()));
    assert_eq!(dao.vote(VotesArg { id: 2, caller: bob(), vote: Votes::No(9) }), Ok(()));
    assert_eq!(dao.get_proposal(1).unwrap().vote_data, vec![(bob(), Votes::Yes(7))]);
    assert_eq!(dao.get_proposal(2).unwrap().vote_data, vec![(bob(), Votes::No(9))]);
}

#[test]
fn two_voters_then_a_repeat() {
    let mut dao = dao();
    dao.proposal(arg(alice(), "p", 10), 1).unwrap();
    assert_eq!(dao.vote(VotesArg { id: 1, caller: alice(), vote: Votes::Yes(10) }), Ok(()));
    assert_eq!(dao.vote(VotesArg { id: 1, caller: bob(), vote: Votes::No(5) }), Ok(()));
    let t = dao.tally(1).unwrap();
    assert_eq!(t.yes, 10);
    assert_eq!(t.no, 5);
    assert_eq!(
        dao.vote(VotesArg { id: 1, caller: alice(), vote: Votes::Yes(10) }),
        Err(DaoError::AlreadyVoted)
    );
    let t = dao.tally(1).unwrap();
    assert_eq!(t.yes, 10);
    assert_eq!(t.no, 5);
    assert_eq!(
        dao.get_proposal(1).unwrap().vote_data,
        vec![(alice(), Votes::Yes(10)), (bob(), Votes::No(5))]
    );
}

#[test]
fn votes_are_kept_in_the_order_cast() {
    let mut dao = dao();
    dao.proposal(arg(alice(), "p", 10), 1).unwrap();
    dao.vote(VotesArg { id: 1, caller: carol(), vote: Votes::No(3) }).unwrap();
    dao.vote(VotesArg { id: 1, caller: alice(), vote: Votes::Yes(2) }).unwrap();
    dao.vote(VotesArg { id: 1, caller: bob(), vote: Votes::Yes(1) }).unwrap();
    assert_eq!(
        dao.get_proposal(1).unwrap().vote_data,
        vec![(carol(), Votes::No(3)), (alice(), Votes::Yes(2)), (bob(), Votes::Yes(1))]
    );
}

#[test]
fn voting_does_not_look_at_state_or_window() {
    let mut dao = dao();
    dao.proposal(arg(alice(), "p", 10), 1).unwrap();
    to_executing(&mut dao, 1);
    assert_eq!(dao.vote(VotesArg { id: 1, caller: bob(), vote: Votes::Yes(4) }), Ok(()));
    assert_eq!(state_of(&dao, 1), ProposalState::Executing);
    assert_eq!(dao.tally(1).unwrap().yes, 4);
}

#[test]
fn voting_changes_only_the_vote_list() {
    let mut dao = dao();
    dao.proposal(arg(alice(), "p", 10), 3).unwrap();
    dao.proposal(arg(bob(), "q", 20), 4).unwrap();
    dao.vote(VotesArg { id: 1, caller: bob(), vote: Votes::Yes(4) }).unwrap();
    let p = dao.get_proposal(1).unwrap();
    assert_eq!(
        (p.id, p.proposer, p.title.as_str(), p.end_time, p.timestamp),
        (1, alice(), "p", 10, 3)
    );
    assert_eq!(p.proposal_state, ProposalState::Open);
    assert!(dao.get_proposal(2).unwrap().vote_data.is_empty());
    assert_eq!(dao.store.next_id, 3);
}

#[test]
fn window_guards_the_decision() {
    let mut dao = dao();
    dao.proposal(arg(alice(), "p", 100), 1).unwrap();
    assert_eq!(
        dao.change_proposal_state(change(1, ProposalState::Accepted), 50),
        Err(DaoError::IllegalTransition)
    );
    assert_eq!(state_of(&dao, 1), ProposalState::Open);
    assert_eq!(dao.change_proposal_state(change(1, ProposalState::Accepted), 150), Ok(()));
    assert_eq!(state_of(&dao, 1), ProposalState::Accepted);
}

#[test]
fn window_closes_exactly_at_end_time() {
    let mut dao = dao();
    dao.proposal(arg(alice(), "p", 100), 1).unwrap();
    dao.proposal(arg(alice(), "q", 100), 1).unwrap();
    assert_eq!(
        dao.change_proposal_state(change(1, ProposalState::Rejected), 99),
        Err(DaoError::IllegalTransition)
    );
    assert_eq!(dao.change_proposal_state(change(1, ProposalState::Rejected), 100), Ok(()));
    assert_eq!(state_of(&dao, 1), ProposalState::Rejected);
    assert_eq!(dao.change_proposal_state(change(2, ProposalState::Accepted), u64::MAX), Ok(()));
    assert_eq!(state_of(&dao, 2), ProposalState::Accepted);
}

#[test]
fn open_proposal_never_goes_straight_to_executing() {
    let mut dao = dao();
    dao.proposal(arg(alice(), "p", 100), 1).unwrap();
    for now in [0u64, 99, 100, 101, u64::MAX] {
        assert_eq!(
            dao.change_proposal_state(change(1, ProposalState::Executing), now),
            Err(DaoError::IllegalTransition)
        );
    }
    assert_eq!(state_of(&dao, 1), ProposalState::Open);
}

#[test]
fn later_moves_need_no_clock() {
    let mut dao = dao();
    dao.proposal(arg(alice(), "p", 100), 1).unwrap();
    dao.change_proposal_state(change(1, ProposalState::Rejected), 100).unwrap();
    assert_eq!(dao.change_proposal_state(change(1, ProposalState::Executing), 0), Ok(()));
    assert_eq!(dao.change_proposal_state(change(1, ProposalState::Succeeded), 0), Ok(()));
    assert_eq!(state_of(&dao, 1), ProposalState::Succeeded);
}

#[test]
fn failure_keeps_its_reason_and_is_final() {
    let mut dao = dao();
    dao.proposal(arg(alice(), "p", 10), 1).unwrap();
    to_executing(&mut dao, 1);
    assert_eq!(
        dao.change_proposal_state(change(1, ProposalState::Failed(String::from("reason"))), 1000),
        Ok(())
    );
    assert_eq!(state_of(&dao, 1), ProposalState::Failed(String::from("reason")));
    let targets = || {
        vec![
            ProposalState::Open,
            ProposalState::Accepted,
            ProposalState::Rejected,
            ProposalState::Executing,
            ProposalState::Succeeded,
            ProposalState::Failed(String::from("other")),
            ProposalState::Failed(String::from("reason")),
        ]
    };
    for target in targets() {
        for now in [0u64, 1000, u64::MAX] {
            assert_eq!(
                dao.change_proposal_state(change(1, target.clone()), now),
                Err(DaoError::IllegalTransition)
            );
        }
    }
    assert_eq!(state_of(&dao, 1), ProposalState::Failed(String::from("reason")));
    assert_eq!(finish_execution(&mut dao.store, 1, Ok(())), Err(DaoError::IllegalTransition));
    assert_eq!(state_of(&dao, 1), ProposalState::Failed(String::from("reason")));
}

#[test]
fn success_is_final() {
    let mut dao = dao();
    dao.proposal(arg(alice(), "p", 10), 1).unwrap();
    to_executing(&mut dao, 1);
    dao.change_proposal_state(change(1, ProposalState::Succeeded), 1000).unwrap();
    for target in [
        ProposalState::Open,
        ProposalState::Accepted,
        ProposalState::Rejected,
        ProposalState::Executing,
        ProposalState::Succeeded,
        ProposalState::Failed(String::from("late")),
    ] {
        assert_eq!(
            dao.change_proposal_state(change(1, target), 5000),
            Err(DaoError::IllegalTransition)
        );
    }
    assert_eq!(state_of(&dao, 1), ProposalState::Succeeded);
}

#[test]
fn change_of_state_touches_only_the_state() {
    let mut dao = dao();
    dao.proposal(arg(alice(), "p", 10), 3).unwrap();
    dao.proposal(arg(bob(), "q", 10), 4).unwrap();
    dao.vote(VotesArg { id: 1, caller: bob(), vote: Votes::Yes(4) }).unwrap();
    dao.change_proposal_state(change(1, ProposalState::Accepted), 10).unwrap();
    let p = dao.get_proposal(1).unwrap();
    assert_eq!(p.vote_data, vec![(bob(), Votes::Yes(4))]);
    assert_eq!((p.id, p.title.as_str(), p.end_time, p.timestamp), (1, "p", 10, 3));
    assert_eq!(state_of(&dao, 2), ProposalState::Open);
    assert_eq!(dao.store.next_id, 3);
}

#[test]
fn hook_failure_is_recorded_with_its_reason() {
    let mut host = Host::with_members(vec![alice()]);
    host.failing.push((String::from("pay"), String::from("insufficient funds")));
    let mut dao = DaoBasic::new(host);
    dao.proposal(arg(alice(), "pay", 10), 1).unwrap();
    to_executing(&mut dao, 1);
    dao.handle_proposal();
    assert_eq!(state_of(&dao, 1), ProposalState::Failed(String::from("insufficient funds")));
}

#[test]
fn handler_runs_the_hook_once_for_each_executing_proposal() {
    let mut host = Host::with_members(vec![alice()]);
    host.failing.push((String::from("motion 3"), String::from("insufficient funds")));
    let mut dao = DaoBasic::new(host);
    for i in 1..=6 {
        dao.proposal(arg(alice(), &format!("motion {}", i), 10), 1).unwrap();
    }
    // 1 stays open, 2 accepted, 3 and 4 executing, 5 rejected, 6 executing then succeeded.
    dao.change_proposal_state(change(2, ProposalState::Accepted), 10).unwrap();
    to_executing(&mut dao, 3);
    to_executing(&mut dao, 4);
    dao.change_proposal_state(change(5, ProposalState::Rejected), 10).unwrap();
    to_executing(&mut dao, 6);
    dao.change_proposal_state(change(6, ProposalState::Succeeded), 10).unwrap();
    dao.vote(VotesArg { id: 3, caller: alice(), vote: Votes::No(2) }).unwrap();
    assert_eq!(executing_ids(&dao.store), vec![3, 4]);

    dao.handle_proposal();

    assert_eq!(*dao.custom_fn.executed.borrow(), vec![3, 4]);
    assert_eq!(state_of(&dao, 1), ProposalState::Open);
    assert_eq!(state_of(&dao, 2), ProposalState::Accepted);
    assert_eq!(state_of(&dao, 3), ProposalState::Failed(String::from("insufficient funds")));
    assert_eq!(state_of(&dao, 4), ProposalState::Succeeded);
    assert_eq!(state_of(&dao, 5), ProposalState::Rejected);
    assert_eq!(state_of(&dao, 6), ProposalState::Succeeded);
    assert_eq!(dao.get_proposal(3).unwrap().vote_data, vec![(alice(), Votes::No(2))]);
    assert_eq!(dao.proposal_list().len(), 6);
    assert_eq!(dao.store.next_id, 7);
    assert!(executing_ids(&dao.store).is_empty());

    dao.handle_proposal();
    assert_eq!(*dao.custom_fn.executed.borrow(), vec![3, 4]);
}

#[test]
fn record_execution_needs_an_executing_proposal() {
    let mut dao = dao();
    dao.proposal(arg(alice(), "p", 10), 1).unwrap();
    assert_eq!(finish_execution(&mut dao.store, 1, Ok(())), Err(DaoError::IllegalTransition));
    assert_eq!(
        finish_execution(&mut dao.store, 1, Err(String::from("no"))),
        Err(DaoError::IllegalTransition)
    );
    assert_eq!(state_of(&dao, 1), ProposalState::Open);
    dao.change_proposal_state(change(1, ProposalState::Accepted), 10).unwrap();
    assert_eq!(finish_execution(&mut dao.store, 1, Ok(())), Err(DaoError::IllegalTransition));
    dao.change_proposal_state(change(1, ProposalState::Executing), 10).unwrap();
    assert_eq!(finish_execution(&mut dao.store, 1, Err(String::from("no"))), Ok(()));
    assert_eq!(state_of(&dao, 1), ProposalState::Failed(String::from("no")));
}

#[test]
fn returned_copies_do_not_reach_the_store() {
    let mut dao = dao();
    let mut copy = dao.proposal(arg(alice(), "p", 10), 1).unwrap();
    copy.title = String::from("changed");
    copy.vote_data.push((bob(), Votes::Yes(1)));
    copy.proposal_state = ProposalState::Succeeded;
    let mut got = dao.get_proposal(1).unwrap();
    assert_eq!(got.title, "p");
    assert!(got.vote_data.is_empty());
    assert_eq!(got.proposal_state, ProposalState::Open);
    got.end_time = 0;
    let mut list = dao.proposal_list();
    assert_eq!(list[0].end_time, 10);
    list[0].id = 9;
    assert_eq!(dao.get_proposal(1).unwrap().id, 1);
}

#[test]
fn error_messages() {
    assert_eq!(DaoError::NotMember.message(), "The caller is not a member");
    assert_eq!(DaoError::NotFound.message(), "The proposal does not exist");
    assert_eq!(DaoError::AlreadyVoted.message(), "Users have voted");
    assert_eq!(
        DaoError::IllegalTransition.message(),
        "Failed to change status, the logic of the status parameter is incorrect"
    );
    assert_eq!(DaoError::DuplicateId.message(), "The proposal id is already in use");
    let down = DaoError::HostError(String::from("oracle unreachable"));
    assert_eq!(down.message(), "oracle unreachable");
    assert_eq!(DaoError::HostError(String::new()).message(), "");
}

#[test]
fn listing_is_the_same_each_time() {
    let mut dao = dao();
    for i in 0..20 {
        dao.proposal(arg(alice(), &format!("motion {}", i), 10 + i), i).unwrap();
    }
    let first: Vec<(u64, String, u64)> =
        dao.proposal_list().into_iter().map(|p| (p.id, p.title, p.end_time)).collect();
    let second: Vec<(u64, String, u64)> =
        dao.proposal_list().into_iter().map(|p| (p.id, p.title, p.end_time)).collect();
    assert_eq!(first, second);
    for (i, (id, title, end_time)) in first.iter().enumerate() {
        assert_eq!(*id, i as u64 + 1);
        assert_eq!(*title, format!("motion {}", i));
        assert_eq!(*end_time, 10 + i as u64);
    }
}

#[test]
fn arguments_and_errors_can_be_cloned() {
    let mut property = HashMap::new();
    property.insert(String::from("k"), String::from("v"));
    let a = ProposalArg {
        proposer: carol(),
        title: String::from("t"),
        content: String::from("c"),
        property: Some(property.clone()),
        end_time: 8,
    };
    let b = a.clone();
    assert_eq!(b.proposer, carol());
    assert_eq!(b.title, "t");
    assert_eq!(b.content, "c");
    assert_eq!(b.property, Some(property));
    assert_eq!(b.end_time, 8);
    assert_eq!(arg(bob(), "x", 1).clone().property, None);

    let v = VotesArg { id: 3, caller: bob(), vote: Votes::No(12) };
    let w = v.clone();
    assert_eq!((w.id, w.caller, w.vote), (3, bob(), Votes::No(12)));

    let c = change(6, ProposalState::Failed(String::from("late"))).clone();
    assert_eq!(c.id, 6);
    assert_eq!(c.state, ProposalState::Failed(String::from("late")));

    for e in [
        DaoError::NotMember,
        DaoError::NotFound,
        DaoError::AlreadyVoted,
        DaoError::IllegalTransition,
        DaoError::DuplicateId,
        DaoError::HostError(String::from("down")),
    ] {
        assert_eq!(e.clone(), e);
    }
}

#[test]
fn engine_keeps_the_policy_it_was_given() {
    let mut dao = dao();
    dao.proposal(arg(alice(), "kept", 10), 1).unwrap();
    dao.vote(VotesArg { id: 1, caller: bob(), vote: Votes::Yes(1) }).unwrap();
    dao.handle_proposal();
    assert_eq!(dao.custom_fn.members, vec![alice(), bob(), carol()]);
    assert!(dao.custom_fn.executed.borrow().is_empty());
}
