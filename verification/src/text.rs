//! The texts of the messages that failures carry.

use vstd::prelude::*;

verus! {

/// The character of a decimal digit.
pub open spec fn digit(d: nat) -> char {
    seq!['0', '1', '2', '3', '4', '5', '6', '7', '8', '9'][(d % 10) as int]
}

/// The decimal numeral of `n`, without leading zeros.
pub open spec fn decimal(n: nat) -> Seq<char>
    decreases n,
{
    if n < 10 {
        seq![digit(n)]
    } else {
        decimal(n / 10).push(digit(n % 10))
    }
}

/// The text `prefix`, the numeral of `id`, `suffix`.
pub open spec fn framed_text(prefix: Seq<char>, id: u64, suffix: Seq<char>) -> Seq<char> {
    prefix + decimal(id as nat) + suffix
}

/// What `get` says of an absent id.
pub open spec fn get_missing_text(id: u64) -> Seq<char> {
    framed_text("a skill exchange entry with id="@, id, " not found"@)
}

/// What `update` says of an absent id.
pub open spec fn update_missing_text(id: u64) -> Seq<char> {
    framed_text("couldn't update a skill exchange entry with id="@, id, ". entry not found"@)
}

/// What `update` says of an entry that the store does not accept.
pub open spec fn update_rejected_text(id: u64) -> Seq<char> {
    framed_text(
        "couldn't update a skill exchange entry with id="@,
        id,
        ". entry cannot be stored"@,
    )
}

/// What `delete` says of an absent id.
pub open spec fn delete_missing_text(id: u64) -> Seq<char> {
    framed_text("couldn't delete a skill exchange entry with id="@, id, ". entry not found."@)
}

/// std's `Display` for `u64`, through `format!`: the decimal numeral.
#[verifier::external_body]
pub(crate) fn id_text(id: u64) -> (r: String)
    ensures
        r@ == decimal(id as nat),
{
    format!("{}", id)
}

/// Builds the text `prefix`, the numeral of `id`, `suffix`.
pub fn framed(prefix: &str, id: u64, suffix: &str) -> (r: String)
    ensures
        r@ == framed_text(prefix@, id, suffix@),
{
    let mut out = String::from_str(prefix);
    let numeral = id_text(id);
    out.append(numeral.as_str());
    out.append(suffix);
    out
}

/// Whether `text` holds `run` as a run of consecutive characters.
pub open spec fn holds_run(text: Seq<char>, run: Seq<char>) -> bool {
    exists|k: int|
        0 <= k && k + run.len() <= text.len() && #[trigger] text.subrange(k, k + run.len()) == run
}

/// Each message about an absent or rejected entry holds the numeral of the id
/// that was asked for.
pub proof fn lemma_messages_name_the_id(id: u64)
    ensures
        holds_run(get_missing_text(id), decimal(id as nat)),
        holds_run(update_missing_text(id), decimal(id as nat)),
        holds_run(update_rejected_text(id), decimal(id as nat)),
        holds_run(delete_missing_text(id), decimal(id as nat)),
{
    let run = decimal(id as nat);
    let get = "a skill exchange entry with id="@;
    let update = "couldn't update a skill exchange entry with id="@;
    let delete = "couldn't delete a skill exchange entry with id="@;
    lemma_framed_holds_id(get, id, " not found"@);
    lemma_framed_holds_id(update, id, ". entry not found"@);
    lemma_framed_holds_id(update, id, ". entry cannot be stored"@);
    lemma_framed_holds_id(delete, id, ". entry not found."@);
    assert(get_missing_text(id).subrange(get.len() as int, get.len() as int + run.len()) == run);
    assert(update_missing_text(id).subrange(update.len() as int, update.len() as int + run.len()) == run);
    assert(update_rejected_text(id).subrange(update.len() as int, update.len() as int + run.len()) == run);
    assert(delete_missing_text(id).subrange(delete.len() as int, delete.len() as int + run.len()) == run);
}

/// A framed text holds the numeral of its id, right after the prefix.
pub proof fn lemma_framed_holds_id(prefix: Seq<char>, id: u64, suffix: Seq<char>)
    ensures
        framed_text(prefix, id, suffix).subrange(
            prefix.len() as int,
            (prefix.len() + decimal(id as nat).len()) as int,
        ) == decimal(id as nat),
{
    let whole = framed_text(prefix, id, suffix);
    assert(whole.subrange(prefix.len() as int, (prefix.len() + decimal(id as nat).len()) as int) =~= decimal(
        id as nat,
    ));
}

} // verus!
