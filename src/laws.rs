//! Properties that relate several operations of the contract.

use vstd::prelude::*;

use crate::contract::{
    add_post, created_contract_address, execute_post, instantiate_post, mint_post, mint_target,
    remove_post, reply_post,
};
use crate::encode::mint_json;
use crate::error::ContractError;
use crate::msg::{Action, Event, ExecuteMsg, InstantiateMsg, TokenInstantiate};
use crate::state::Store;

verus! {

/// After instantiation and the reply that carries the created token's valid
/// address, the configuration holds the admin unchanged and the token address.
pub proof fn instantiate_then_reply_binds_token(
    msg: InstantiateMsg,
    self_addr: Seq<char>,
    r0: Result<(Store, TokenInstantiate), ContractError>,
    s1: Store,
    events: Vec<Event>,
    r1: Result<Option<String>, ContractError>,
)
    requires
        instantiate_post(msg, self_addr, true, r0),
        r0 is Ok,
        reply_post(r0->Ok_0.0, s1, r0->Ok_0.1.reply_id, Ok(events), true, r1),
        created_contract_address(events@) is Some,
    ensures
        r1 is Ok,
        s1.wf(),
        s1.admin_view() == msg.admin@,
        s1.token_view() == created_contract_address(events@),
        s1.token_view() is Some,
{
}

/// No execute call and no reply changes the admin.
pub proof fn admin_is_fixed(
    s: Store,
    s2: Store,
    sender: Seq<char>,
    msg: ExecuteMsg,
    valid: bool,
    r: Result<Action, ContractError>,
    id: u64,
    result: Result<Vec<Event>, String>,
    s3: Store,
    r3: Result<Option<String>, ContractError>,
)
    requires
        execute_post(s, s2, sender, msg, valid, r),
        reply_post(s, s3, id, result, valid, r3),
    ensures
        s2.admin_view() == s.admin_view(),
        s3.admin_view() == s.admin_view(),
{
}

/// An address joins the whitelist only through an `AddToWhiteList` of that
/// address by the admin that succeeds; a reply never changes the whitelist.
pub proof fn only_admin_add_whitelists(
    s: Store,
    s2: Store,
    sender: Seq<char>,
    msg: ExecuteMsg,
    valid: bool,
    r: Result<Action, ContractError>,
    a: Seq<char>,
    id: u64,
    result: Result<Vec<Event>, String>,
    s3: Store,
    r3: Result<Option<String>, ContractError>,
)
    requires
        execute_post(s, s2, sender, msg, valid, r),
        reply_post(s, s3, id, result, valid, r3),
        !s.whitelist_view().contains(a),
    ensures
        s2.whitelist_view().contains(a) ==> (msg matches ExecuteMsg::AddToWhiteList { address }
            && address@ == a && sender == s.admin_view() && r is Ok),
        s3.whitelist_view() == s.whitelist_view(),
{
}

/// An admin's add makes the address whitelisted, and a following remove
/// makes it not whitelisted again; both succeed.
pub proof fn add_then_remove(
    s: Store,
    s1: Store,
    s2: Store,
    a: Seq<char>,
    r1: Result<Action, ContractError>,
    r2: Result<Action, ContractError>,
)
    requires
        s.wf(),
        add_post(s, s1, s.admin_view(), a, true, r1),
        remove_post(s1, s2, s.admin_view(), a, true, r2),
    ensures
        r1 is Ok,
        s1.whitelist_view().contains(a),
        r2 is Ok,
        !s2.whitelist_view().contains(a),
{
}

/// Adding an address twice succeeds both times and leaves what one add left.
pub proof fn add_is_idempotent(
    s: Store,
    s1: Store,
    s2: Store,
    a: Seq<char>,
    r1: Result<Action, ContractError>,
    r2: Result<Action, ContractError>,
)
    requires
        s.wf(),
        add_post(s, s1, s.admin_view(), a, true, r1),
        add_post(s1, s2, s.admin_view(), a, true, r2),
    ensures
        r1 is Ok,
        r2 is Ok,
        s2.whitelist_view() == s1.whitelist_view(),
        s2.config_view() == s1.config_view(),
{
    assert(s1.whitelist_view().insert(a) =~= s1.whitelist_view());
}

/// Removing an address twice succeeds both times and leaves what one remove left.
pub proof fn remove_is_idempotent(
    s: Store,
    s1: Store,
    s2: Store,
    a: Seq<char>,
    r1: Result<Action, ContractError>,
    r2: Result<Action, ContractError>,
)
    requires
        s.wf(),
        remove_post(s, s1, s.admin_view(), a, true, r1),
        remove_post(s1, s2, s.admin_view(), a, true, r2),
    ensures
        r1 is Ok,
        r2 is Ok,
        s2.whitelist_view() == s1.whitelist_view(),
        s2.config_view() == s1.config_view(),
{
    assert(s1.whitelist_view().remove(a) =~= s1.whitelist_view());
}

/// A caller other than the admin cannot add or remove whitelist entries: the
/// call fails with `Unauthorized` and the store stays as it was.
pub proof fn only_admin_manages_whitelist(
    s: Store,
    s2: Store,
    sender: Seq<char>,
    msg: ExecuteMsg,
    valid: bool,
    r: Result<Action, ContractError>,
)
    requires
        execute_post(s, s2, sender, msg, valid, r),
        sender != s.admin_view(),
        !(msg is Mint),
    ensures
        r == Err::<Action, ContractError>(ContractError::Unauthorized),
        s2 == s,
{
}

/// Once a token is bound, the admin may mint without being whitelisted.
pub proof fn admin_may_mint(
    s: Store,
    amount: u128,
    recipient: Option<Seq<char>>,
    valid: bool,
    r: Result<Action, ContractError>,
)
    requires
        s.token_view() is Some,
        mint_post(s, s.admin_view(), amount, recipient, valid, r),
        recipient is None || valid,
    ensures
        r matches Ok(Action::Mint(m)) && m.amount == amount,
{
}

/// Once a token is bound, a whitelisted caller's mint is accepted and asks the
/// token contract for exactly the requested amount, to the resolved recipient;
/// a caller neither admin nor whitelisted fails with `Unauthorized`.
pub proof fn mint_needs_capability(
    s: Store,
    sender: Seq<char>,
    amount: u128,
    recipient: Option<Seq<char>>,
    valid: bool,
    r: Result<Action, ContractError>,
)
    requires
        s.token_view() is Some,
        mint_post(s, sender, amount, recipient, valid, r),
    ensures
        s.whitelist_view().contains(sender) && (recipient is None || valid) ==> (r matches Ok(
            Action::Mint(m),
        ) && m.amount == amount && Some(m.token_contract@) == s.token_view() && m.recipient@
            == match recipient {
            Some(x) => x,
            None => sender,
        } && m.msg@ == mint_json(m.recipient@, amount)),
        sender != s.admin_view() && !s.whitelist_view().contains(sender) ==> r == Err::<
            Action,
            ContractError,
        >(ContractError::Unauthorized),
{
}

/// A mint without a recipient credits the caller.
pub proof fn mint_defaults_to_caller(
    s: Store,
    sender: Seq<char>,
    amount: u128,
    valid: bool,
    r: Result<Action, ContractError>,
)
    requires
        mint_post(s, sender, amount, None, valid, r),
    ensures
        s.token_view() is Some && s.may_mint(sender) ==> (r matches Ok(Action::Mint(m))
            && m.recipient@ == sender),
{
}

/// Between instantiation and its reply no token is bound, and every mint
/// fails with `NoContractAddress`.
pub proof fn mint_before_reply_fails(
    msg: InstantiateMsg,
    self_addr: Seq<char>,
    r0: Result<(Store, TokenInstantiate), ContractError>,
    sender: Seq<char>,
    amount: u128,
    recipient: Option<Seq<char>>,
    valid: bool,
    r: Result<Action, ContractError>,
)
    requires
        instantiate_post(msg, self_addr, true, r0),
        r0 is Ok,
        mint_post(r0->Ok_0.0, sender, amount, recipient, valid, r),
    ensures
        r == Err::<Action, ContractError>(ContractError::NoContractAddress),
{
}

/// One call into the contract together with its outcome.
pub enum Call {
    Execute {
        sender: Seq<char>,
        msg: ExecuteMsg,
        valid: bool,
        r: Result<Action, ContractError>,
    },
    Reply {
        id: u64,
        result: Result<Vec<Event>, String>,
        valid: bool,
        r: Result<Option<String>, ContractError>,
    },
}

/// The store `s2` is what call `c` leaves of the store `s`.
pub open spec fn call_step(s: Store, s2: Store, c: Call) -> bool {
    match c {
        Call::Execute { sender, msg, valid, r } => execute_post(s, s2, sender, msg, valid, r),
        Call::Reply { id, result, valid, r } => reply_post(s, s2, id, result, valid, r),
    }
}

/// Whether `c` is an `AddToWhiteList` of `a` that succeeded.
pub open spec fn adds(c: Call, a: Seq<char>) -> bool {
    c matches Call::Execute { msg: ExecuteMsg::AddToWhiteList { address }, r, .. } && address@
        == a && r is Ok
}

/// Whether `c` is a `RemoveFromWhiteList` of `a` that succeeded.
pub open spec fn removes(c: Call, a: Seq<char>) -> bool {
    c matches Call::Execute { msg: ExecuteMsg::RemoveFromWhiteList { address }, r, .. }
        && address@ == a && r is Ok
}

/// Whether `a` is whitelisted after `calls`, from `start`: the last successful
/// add or remove of `a` decides, and without one `a` keeps its standing.
pub open spec fn whitelisted_after(start: bool, calls: Seq<Call>, a: Seq<char>) -> bool
    decreases calls.len(),
{
    if calls.len() == 0 {
        start
    } else if adds(calls.last(), a) {
        true
    } else if removes(calls.last(), a) {
        false
    } else {
        whitelisted_after(start, calls.drop_last(), a)
    }
}

/// Over any history of calls, an address is whitelisted exactly when the last
/// successful add or remove of it was an add, or, with neither, when it was
/// whitelisted at the start.
pub proof fn whitelist_follows_history(states: Seq<Store>, calls: Seq<Call>, a: Seq<char>)
    requires
        states.len() == calls.len() + 1,
        forall|i: int|
            0 <= i < calls.len() ==> call_step(#[trigger] states[i], states[i + 1], calls[i]),
    ensures
        states.last().whitelist_view().contains(a) == whitelisted_after(
            states[0].whitelist_view().contains(a),
            calls,
            a,
        ),
    decreases calls.len(),
{
    if calls.len() > 0 {
        let n = calls.len() - 1;
        let pre = states.drop_last();
        assert forall|i: int| 0 <= i < calls.drop_last().len() implies call_step(
            #[trigger] pre[i],
            pre[i + 1],
            calls.drop_last()[i],
        ) by {
            assert(call_step(states[i], states[i + 1], calls[i]));
        }
        whitelist_follows_history(pre, calls.drop_last(), a);
        assert(call_step(states[n], states[n + 1], calls[n]));
        assert(states.last() == states[n + 1]);
        assert(pre.last() == states[n]);
    }
}

/// From instantiation on, an address is not whitelisted until an add of it by
/// the admin succeeds, whatever calls come between.
pub proof fn never_added_never_whitelisted(states: Seq<Store>, calls: Seq<Call>, a: Seq<char>)
    requires
        states.len() == calls.len() + 1,
        states[0].whitelist_view() == Set::<Seq<char>>::empty(),
        forall|i: int|
            0 <= i < calls.len() ==> call_step(#[trigger] states[i], states[i + 1], calls[i]),
        forall|i: int| 0 <= i < calls.len() ==> !adds(#[trigger] calls[i], a),
    ensures
        !states.last().whitelist_view().contains(a),
{
    whitelist_follows_history(states, calls, a);
    lemma_not_added(calls, a);
}

proof fn lemma_not_added(calls: Seq<Call>, a: Seq<char>)
    requires
        forall|i: int| 0 <= i < calls.len() ==> !adds(#[trigger] calls[i], a),
    ensures
        !whitelisted_after(false, calls, a),
    decreases calls.len(),
{
    if calls.len() > 0 {
        assert(!adds(calls[calls.len() - 1], a));
        assert forall|i: int| 0 <= i < calls.drop_last().len() implies !adds(
            #[trigger] calls.drop_last()[i],
            a,
        ) by {
            assert(!adds(calls[i], a));
        }
        lemma_not_added(calls.drop_last(), a);
    }
}

} // verus!
