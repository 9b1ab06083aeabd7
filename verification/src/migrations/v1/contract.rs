//! The owner of the first version, and how the owner withdraws the
//! contract's funds.

use vstd::prelude::*;
use crate::host::{
    coins_view,
    BankMsg,
    Coin,
    CoinView,
    CosmosMsg,
    Env,
    MessageInfo,
    Response,
    StdError,
};
use crate::migrations::v1::Store;

verus! {

/// Why a withdrawal failed.
#[derive(Clone, Debug, PartialEq, Eq)]
pub enum ContractError {
    /// The host failed to load a record.
    Std(StdError),
    /// The caller is not the owner, who is given.
    Unauthorized { owner: String },
}

/// Makes the caller the owner.
pub fn instantiate(store: &mut Store, info: &MessageInfo) -> (r: Result<Response, StdError>)
    ensures
        r matches Ok(resp) && resp.is_empty(),
        final(store).owner == Some(info.sender),
        final(store).data_to_migrate == old(store).data_to_migrate,
{
    store.owner = Some(info.sender.clone());
    Ok(Response::new())
}

/// The response sends these coins to `receiver` and logs that `sender`
/// withdrew.
pub open spec fn is_withdrawal(
    resp: Response,
    receiver: Seq<char>,
    sender: Seq<char>,
    coins: Seq<CoinView>,
) -> bool {
    &&& resp.messages@.len() == 1
    &&& resp.messages@[0] matches CosmosMsg::Bank(BankMsg::Send { to_address, amount })
    &&& to_address@ == receiver
    &&& coins_view(amount@) == coins
    &&& resp.events@.len() == 0
    &&& resp.attributes@.len() == 2
    &&& resp.attributes@[0].is("action"@, "withdraw"@)
    &&& resp.attributes@[1].is("sender"@, sender)
}

/// What a withdrawal promises, for the coins that go out if it succeeds:
/// without an owner on record it fails as not found, for anyone but the
/// owner it fails with `Unauthorized`, and for the owner it sends the coins.
pub open spec fn is_withdraw_result(
    store: Store,
    info: MessageInfo,
    receiver: Seq<char>,
    coins: Seq<CoinView>,
    r: Result<Response, ContractError>,
) -> bool {
    match store.owner {
        None => r matches Err(ContractError::Std(StdError::NotFound { kind })) && kind@
            == "Addr"@,
        Some(owner) => if owner@ == info.sender@ {
            r matches Ok(resp) && is_withdrawal(resp, receiver, info.sender@, coins)
        } else {
            r == Err::<Response, ContractError>(ContractError::Unauthorized { owner })
        },
    }
}

/// Checks that the caller is the owner.
pub fn assert_owner(store: &Store, info: &MessageInfo) -> (r: Result<(), ContractError>)
    ensures
        match store.owner {
            None => r matches Err(ContractError::Std(StdError::NotFound { kind })) && kind@
                == "Addr"@,
            Some(owner) => if owner@ == info.sender@ {
                r is Ok
            } else {
                r == Err::<(), ContractError>(ContractError::Unauthorized { owner })
            },
        },
{
    match &store.owner {
        None => Err(ContractError::Std(StdError::NotFound { kind: String::from_str("Addr") })),
        Some(owner) => if info.sender != *owner {
            Err(ContractError::Unauthorized { owner: owner.clone() })
        } else {
            Ok(())
        },
    }
}

/// Sends the whole balance of the contract to the owner. `balance` is what
/// the host gives as the contract's balance.
pub fn withdraw(store: &Store, env: &Env, info: &MessageInfo, balance: Vec<Coin>) -> (r: Result<
    Response,
    ContractError,
>)
    ensures
        is_withdraw_result(*store, *info, info.sender@, coins_view(balance@), r),
{
    match assert_owner(store, info) {
        Err(e) => {
            return Err(e);
        },
        Ok(_) => {},
    }
    let bank_msg = BankMsg::Send { to_address: info.sender.clone(), amount: balance };
    let resp = Response::new().add_message(CosmosMsg::Bank(bank_msg)).add_attribute(
        "action",
        String::from_str("withdraw"),
    ).add_attribute("sender", info.sender.clone());
    Ok(resp)
}

/// The most of a denomination that may be withdrawn: the amount of the first
/// coin of that denomination among `funds`, and nothing if there is none.
pub open spec fn limit_of(funds: Seq<CoinView>, denom: Seq<char>) -> u128
    decreases funds.len(),
{
    if funds.len() == 0 {
        0
    } else if funds[0].denom == denom {
        funds[0].amount
    } else {
        limit_of(funds.drop_first(), denom)
    }
}

/// The coins that go out: the whole balance if no funds are named, and
/// otherwise of each coin of the balance no more than the funds allow.
pub open spec fn capped(balance: Seq<CoinView>, funds: Seq<CoinView>) -> Seq<CoinView> {
    if funds.len() == 0 {
        balance
    } else {
        balance.map_values(
            |c: CoinView|
                CoinView {
                    denom: c.denom,
                    amount: if c.amount <= limit_of(funds, c.denom) {
                        c.amount
                    } else {
                        limit_of(funds, c.denom)
                    },
                },
        )
    }
}

/// The most of a denomination that may be withdrawn.
pub fn find_limit(funds: &Vec<Coin>, denom: &String) -> (limit: u128)
    ensures
        limit == limit_of(coins_view(funds@), denom@),
{
    let ghost all = coins_view(funds@);
    let mut i: usize = 0;
    proof {
        assert(all.skip(0) =~= all);
    }
    while i < funds.len()
        invariant
            i <= funds.len(),
            all == coins_view(funds@),
            limit_of(all, denom@) == limit_of(all.skip(i as int), denom@),
        decreases funds.len() - i,
    {
        proof {
            assert(all.skip(i as int)[0] == funds@[i as int]@);
            assert(all.skip(i as int).drop_first() =~= all.skip(i + 1));
        }
        if funds[i].denom == *denom {
            return funds[i].amount;
        }
        i += 1;
    }
    0
}

/// Sends funds of the contract to `receiver`: the whole balance if no funds
/// are named, and otherwise of each coin of the balance no more than the
/// named funds allow. Only the owner may do so. `balance` is what the host
/// gives as the contract's balance.
pub fn withdraw_to(
    store: &Store,
    env: &Env,
    info: &MessageInfo,
    receiver: String,
    funds: Vec<Coin>,
    balance: Vec<Coin>,
) -> (r: Result<Response, ContractError>)
    ensures
        is_withdraw_result(
            *store,
            *info,
            receiver@,
            capped(coins_view(balance@), coins_view(funds@)),
            r,
        ),
{
    match assert_owner(store, info) {
        Err(e) => {
            return Err(e);
        },
        Ok(_) => {},
    }
    let mut balance = balance;
    let ghost before = coins_view(balance@);
    if funds.len() > 0 {
        let mut out: Vec<Coin> = Vec::new();
        let mut i: usize = 0;
        while i < balance.len()
            invariant
                i <= balance.len(),
                funds@.len() > 0,
                before == coins_view(balance@),
                out@.len() == i,
                forall|j: int|
                    0 <= j < i ==> (#[trigger] out@[j])@ == capped(before, coins_view(funds@))[j],
            decreases balance.len() - i,
        {
            let limit = find_limit(&funds, &balance[i].denom);
            let amount = if balance[i].amount <= limit {
                balance[i].amount
            } else {
                limit
            };
            out.push(Coin { denom: balance[i].denom.clone(), amount });
            i += 1;
        }
        proof {
            assert(coins_view(out@) =~= capped(before, coins_view(funds@)));
        }
        balance = out;
    }
    let bank_msg = BankMsg::Send { to_address: receiver, amount: balance };
    let resp = Response::new().add_message(CosmosMsg::Bank(bank_msg)).add_attribute(
        "action",
        String::from_str("withdraw"),
    ).add_attribute("sender", info.sender.clone());
    Ok(resp)
}

} // verus!
