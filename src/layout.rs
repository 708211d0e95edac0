use vstd::prelude::*;
use vstd::string::{StrSliceExecFns, StringExecFns};

use crate::types::{AccountAddress, AggerQueryParam};

verus! {

/// The lower-case hexadecimal digit of `n`, for `n < 16`.
pub open spec fn hex_char(n: int) -> char {
    "0123456789abcdef"@[n]
}

/// Two lower-case hexadecimal digits per byte, most significant first.
pub open spec fn hex_of(bytes: Seq<u8>) -> Seq<char>
    decreases bytes.len(),
{
    if bytes.len() == 0 {
        Seq::empty()
    } else {
        hex_of(bytes.drop_last()) + seq![
            hex_char(bytes.last() as int / 16),
            hex_char(bytes.last() as int % 16),
        ]
    }
}

fn hex_digit(n: u8) -> (r: &'static str)
    requires
        n < 16,
    ensures
        r@ == seq![hex_char(n as int)],
{
    let digits = "0123456789abcdef";
    proof {
        reveal_strlit("0123456789abcdef");
    }
    let r = digits.substring_ascii(n as usize, n as usize + 1);
    assert(r@ =~= seq![hex_char(n as int)]);
    r
}

/// `0x`, then the address in hexadecimal with leading zeros kept.
pub open spec fn address_text(address: Seq<u8>) -> Seq<char> {
    seq!['0', 'x'] + hex_of(address)
}

/// The tag `<address>::<module>::<name>` of an item published on chain.
pub open spec fn struct_tag_spec(address: Seq<u8>, module: Seq<char>, name: Seq<char>) -> Seq<char> {
    address_text(address) + seq![':', ':'] + module + seq![':', ':'] + name
}

/// The address as `0x` and 64 lower-case hexadecimal digits.
pub fn address_hex(address: &AccountAddress) -> (r: String)
    ensures
        r@ == address_text(address@),
{
    let mut r = String::new();
    proof {
        reveal_strlit("0x");
    }
    r.append("0x");
    let mut i: usize = 0;
    while i < 32
        invariant
            i <= 32,
            address@.len() == 32,
            r@ == address_text(address@.subrange(0, i as int)),
        decreases 32 - i,
    {
        let b = address[i];
        r.append(hex_digit(b / 16));
        r.append(hex_digit(b % 16));
        proof {
            let next = address@.subrange(0, i as int + 1);
            assert(next.drop_last() =~= address@.subrange(0, i as int));
            assert(next.last() == b);
        }
        i = i + 1;
    }
    assert(address@.subrange(0, 32) =~= address@);
    r
}

/// The tag `<address>::<module>::<name>`, the address written as by `address_hex`.
pub fn struct_tag(address: &AccountAddress, module: &String, name: &String) -> (r: String)
    ensures
        r@ == struct_tag_spec(address@, module@, name@),
{
    let mut r = address_hex(address);
    proof {
        reveal_strlit("::");
    }
    r.append("::");
    r.append(module.as_str());
    r.append("::");
    r.append(name.as_str());
    r
}

/// The names under which the query contract publishes its items.
#[derive(Clone, Debug)]
pub struct ContractLayout {
    /// Where the contract lives.
    pub param: AggerQueryParam,
    /// The module that holds the queries and the view functions.
    pub module: String,
    /// The per-user resource that holds the table of queries.
    pub queries_struct: String,
    /// The type of a query in that table.
    pub query_struct: String,
    /// The resource that holds the event handles.
    pub event_handles_struct: String,
    /// The field of that resource that holds the new-query events.
    pub new_event_field: String,
}

impl ContractLayout {
    /// The tag of the per-user queries resource.
    pub fn queries_tag(&self) -> (r: String)
        ensures
            r@ == struct_tag_spec(self.param.aggger_address@, self.module@, self.queries_struct@),
    {
        struct_tag(&self.param.aggger_address, &self.module, &self.queries_struct)
    }

    /// The tag of a query's type.
    pub fn query_tag(&self) -> (r: String)
        ensures
            r@ == struct_tag_spec(self.param.aggger_address@, self.module@, self.query_struct@),
    {
        struct_tag(&self.param.aggger_address, &self.module, &self.query_struct)
    }

    /// The tag of the event-handles resource.
    pub fn event_handles_tag(&self) -> (r: String)
        ensures
            r@ == struct_tag_spec(self.param.aggger_address@, self.module@, self.event_handles_struct@),
    {
        struct_tag(&self.param.aggger_address, &self.module, &self.event_handles_struct)
    }
}

} // verus!
