//! Plain data the contract exchanges with its host: identities, coins,
//! caller information, and the transfer instructions and audit attributes a
//! successful call hands back to the host for execution.

use crate::error::ContractError;
use vstd::prelude::*;
use vstd::string::StrSliceExecFns;

verus! {

/// A character an identity may contain: an ASCII lowercase letter or digit.
pub open spec fn is_ident_char(c: char) -> bool {
    ||| ('a' as u32) <= (c as u32) && (c as u32) <= ('z' as u32)
    ||| ('0' as u32) <= (c as u32) && (c as u32) <= ('9' as u32)
}

/// A well-formed identity: between 3 and 90 characters, each an ASCII
/// lowercase letter or digit.
pub open spec fn valid_addr(s: Seq<char>) -> bool {
    &&& 3 <= s.len() <= 90
    &&& forall|i: int| 0 <= i < s.len() ==> is_ident_char(s[i])
}

/// A validated identity: the destination of a transfer, or a party named in
/// the configuration.
#[derive(Debug, PartialEq, Eq)]
pub struct Addr {
    pub addr: String,
}

impl View for Addr {
    type V = Seq<char>;

    open spec fn view(&self) -> Seq<char> {
        self.addr@
    }
}

impl Clone for Addr {
    fn clone(&self) -> (res: Self)
        ensures
            res == *self,
    {
        Addr { addr: self.addr.clone() }
    }
}

impl Addr {
    pub fn as_str(&self) -> (s: &str)
        ensures
            s@ == self@,
    {
        self.addr.as_str()
    }

    pub fn into_string(self) -> (s: String)
        ensures
            s@ == self@,
    {
        self.addr
    }
}

/// Checks that an identity string is well-formed, and wraps it. Rejected
/// identities surface as `InvalidIdentity`, exactly when `valid_addr` does
/// not hold of the string.
pub fn addr_validate(input: &str) -> (res: Result<Addr, ContractError>)
    ensures
        match res {
            Ok(a) => valid_addr(input@) && a@ == input@,
            Err(e) => !valid_addr(input@) && e == ContractError::InvalidIdentity,
        },
{
    let len = input.unicode_len();
    if len < 3 || len > 90 {
        return Err(ContractError::InvalidIdentity);
    }
    let mut i: usize = 0;
    while i < len
        invariant
            3 <= len <= 90,
            len == input@.len(),
            i <= len,
            forall|j: int| 0 <= j < i ==> is_ident_char(input@[j]),
        decreases len - i,
    {
        let c = input.get_char(i);
        let u = c as u32;
        if !((97 <= u && u <= 122) || (48 <= u && u <= 57)) {
            assert(!is_ident_char(input@[i as int]));
            return Err(ContractError::InvalidIdentity);
        }
        i += 1;
    }
    Ok(Addr { addr: input.to_owned() })
}

/// A quantity of one native asset.
#[derive(Debug, Clone, PartialEq, Eq)]
pub struct Coin {
    pub denom: String,
    pub amount: u128,
}

/// What the host tells a handler about the inbound call: who sent it and
/// what payment came attached.
#[derive(Debug, Clone)]
pub struct MessageInfo {
    pub sender: Addr,
    pub funds: Vec<Coin>,
}

/// An instruction to the host's native transfer primitive; the core only
/// constructs these, the host executes them after the call commits.
#[derive(Debug, Clone, PartialEq, Eq)]
pub enum BankMsg {
    Send { to_address: String, amount: Vec<Coin> },
}

/// One audit key-value pair attached to a response.
#[derive(Debug, Clone, PartialEq, Eq)]
pub struct Attribute {
    pub key: String,
    pub value: String,
}

/// What a successful handler call hands back to the host: zero or more
/// transfer instructions and audit attributes.
#[derive(Debug, Clone, PartialEq, Eq)]
pub struct Response {
    pub messages: Vec<BankMsg>,
    pub attributes: Vec<Attribute>,
}

/// Holds when `m` is a transfer instruction of a single coin of `amt` units
/// of `denom` to the destination `to`.
pub open spec fn is_send_to(m: BankMsg, to: Seq<char>, denom: Seq<char>, amt: u128) -> bool {
    match m {
        BankMsg::Send { to_address, amount } => {
            &&& to_address@ == to
            &&& amount@.len() == 1
            &&& amount@[0].denom@ == denom
            &&& amount@[0].amount == amt
        },
    }
}

/// Holds when `a` is the audit attribute `k: v`.
pub open spec fn is_attr(a: Attribute, k: Seq<char>, v: Seq<char>) -> bool {
    a.key@ == k && a.value@ == v
}

impl Response {
    pub fn new() -> (r: Response)
        ensures
            r.messages@.len() == 0,
            r.attributes@.len() == 0,
    {
        Response { messages: Vec::new(), attributes: Vec::new() }
    }

    pub fn add_message(self, msg: BankMsg) -> (r: Response)
        ensures
            r.messages@ == self.messages@.push(msg),
            r.attributes@ == self.attributes@,
    {
        let mut messages = self.messages;
        messages.push(msg);
        Response { messages, attributes: self.attributes }
    }

    pub fn add_attribute(self, key: String, value: String) -> (r: Response)
        ensures
            r.messages@ == self.messages@,
            r.attributes@ == self.attributes@.push(Attribute { key, value }),
    {
        let mut attributes = self.attributes;
        attributes.push(Attribute { key, value });
        Response { messages: self.messages, attributes }
    }
}

impl Default for Response {
    fn default() -> (r: Response)
        ensures
            r.messages@.len() == 0,
            r.attributes@.len() == 0,
    {
        Response::new()
    }
}

} // verus!
