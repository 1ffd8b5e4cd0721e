use vstd::prelude::*;

verus! {

/// The reload command line: the byte of `r` followed by a newline. The
/// supervised ecosystem reads this fixed, unparsed token on its standard
/// input as the order to hot-reload.
pub open spec fn reload_token() -> Seq<u8> {
    seq![0x72u8, 0x0au8]
}

/// Build the reload command line that the caller writes to the child's
/// control stream.
pub fn reload_command() -> (r: Vec<u8>)
    ensures
        r@ == reload_token(),
{
    let mut v: Vec<u8> = Vec::new();
    v.push(0x72u8);
    v.push(0x0au8);
    proof {
        assert(v@ =~= reload_token());
    }
    v
}

/// Two reload commands written in immediate succession leave exactly two
/// tokens on the control stream, one after the other, in order.
pub proof fn lemma_two_reloads_in_order(
    before: Seq<u8>,
    after_first: Seq<u8>,
    after_second: Seq<u8>,
)
    requires
        after_first == before + reload_token(),
        after_second == after_first + reload_token(),
    ensures
        after_second == before + reload_token() + reload_token(),
{
}

} // verus!
