//! Sanitizing of the arguments that a caller passes through to cargo.
//!
//! Two flags belong to this tool alone: the release flag and the message-format
//! flag, the latter together with the value that follows it. Both are dropped
//! from what the caller supplied. A target flag is kept, and remembered.

use crate::text::{str_eq, views};
use vstd::prelude::*;

verus! {

/// The flag that turns on release mode.
pub open spec fn release_flag() -> Seq<char> {
    "--release"@
}

/// The flag that selects the format of cargo's messages; one value follows it.
pub open spec fn message_format_flag() -> Seq<char> {
    "--message-format"@
}

/// The flag that selects the target platform.
pub open spec fn target_flag() -> Seq<char> {
    "--target"@
}

/// The three flags differ from one another.
pub proof fn lemma_flags_distinct()
    ensures
        release_flag() != message_format_flag(),
        release_flag() != target_flag(),
        message_format_flag() != target_flag(),
        release_flag().len() == 9,
        message_format_flag().len() == 16,
        target_flag().len() == 8,
{
    reveal_strlit("--release");
    reveal_strlit("--message-format");
    reveal_strlit("--target");
    assert(release_flag().len() == 9);
    assert(message_format_flag().len() == 16);
    assert(target_flag().len() == 8);
}

/// Whether a token is one of the two flags that this tool sets by itself.
pub open spec fn is_owned_flag(token: Seq<char>) -> bool {
    token == release_flag() || token == message_format_flag()
}

/// Whether the token at `i` is consumed as the value of a message-format flag
/// that stands directly before it. A message-format token that is itself such
/// a value starts no pair of its own.
pub open spec fn is_format_value(args: Seq<Seq<char>>, i: int) -> bool
    decreases i,
{
    0 < i < args.len() && args[i - 1] == message_format_flag() && !is_format_value(args, i - 1)
}

/// Whether the token at `i` is removed: an owned flag, or the value paired with
/// a message-format flag.
pub open spec fn is_dropped(args: Seq<Seq<char>>, i: int) -> bool {
    is_owned_flag(args[i]) || is_format_value(args, i)
}

/// The tokens among the first `n` that pass through, in the order they came in.
pub open spec fn sanitized_prefix(args: Seq<Seq<char>>, n: int) -> Seq<Seq<char>>
    decreases n,
{
    if n <= 0 {
        Seq::empty()
    } else if is_dropped(args, n - 1) {
        sanitized_prefix(args, n - 1)
    } else {
        sanitized_prefix(args, n - 1).push(args[n - 1])
    }
}

/// The pass-through tokens of a whole argument list.
pub open spec fn sanitized(args: Seq<Seq<char>>) -> Seq<Seq<char>> {
    sanitized_prefix(args, args.len() as int)
}

/// The positions among the first `n` whose tokens pass through, ascending.
pub open spec fn kept_positions(args: Seq<Seq<char>>, n: int) -> Seq<int>
    decreases n,
{
    if n <= 0 {
        Seq::empty()
    } else if is_dropped(args, n - 1) {
        kept_positions(args, n - 1)
    } else {
        kept_positions(args, n - 1).push(n - 1)
    }
}

/// An owned flag that was removed from the caller's arguments.
#[derive(Clone, Copy, Debug, PartialEq, Eq, Structural)]
pub enum DroppedFlag {
    Release,
    MessageFormat,
}

/// The owned flags met among the first `n` tokens, one entry for each flag
/// that was dropped as a flag (a token consumed as a value gives none).
pub open spec fn dropped_flags_prefix(args: Seq<Seq<char>>, n: int) -> Seq<DroppedFlag>
    decreases n,
{
    if n <= 0 {
        Seq::empty()
    } else if is_format_value(args, n - 1) {
        dropped_flags_prefix(args, n - 1)
    } else if args[n - 1] == release_flag() {
        dropped_flags_prefix(args, n - 1).push(DroppedFlag::Release)
    } else if args[n - 1] == message_format_flag() {
        dropped_flags_prefix(args, n - 1).push(DroppedFlag::MessageFormat)
    } else {
        dropped_flags_prefix(args, n - 1)
    }
}

/// The owned flags dropped from a whole argument list, in order.
pub open spec fn dropped_flags(args: Seq<Seq<char>>) -> Seq<DroppedFlag> {
    dropped_flags_prefix(args, args.len() as int)
}

/// The tokens kept among the first `n` are those at the kept positions: the
/// positions ascend, stay below `n`, name no dropped token, and miss no token
/// that is not dropped.
pub proof fn lemma_sanitized_prefix_order(args: Seq<Seq<char>>, n: int)
    requires
        0 <= n <= args.len(),
    ensures
        kept_positions(args, n).len() == sanitized_prefix(args, n).len(),
        forall|k: int|
            0 <= k < kept_positions(args, n).len() ==> {
                &&& 0 <= #[trigger] kept_positions(args, n)[k] < n
                &&& !is_dropped(args, kept_positions(args, n)[k])
                &&& sanitized_prefix(args, n)[k] == args[kept_positions(args, n)[k]]
            },
        forall|j: int, k: int|
            0 <= j < k < kept_positions(args, n).len() ==> #[trigger] kept_positions(args, n)[j]
                < #[trigger] kept_positions(args, n)[k],
        forall|i: int|
            0 <= i < n && !is_dropped(args, i) ==> #[trigger] kept_positions(args, n).contains(i),
    decreases n,
{
    if n > 0 {
        lemma_sanitized_prefix_order(args, n - 1);
        let before = kept_positions(args, n - 1);
        let now = kept_positions(args, n);
        if !is_dropped(args, n - 1) {
            assert(now == before.push(n - 1));
            assert(now[now.len() - 1] == n - 1);
        }
        assert forall|i: int| 0 <= i < n && !is_dropped(args, i) implies now.contains(i) by {
            if i < n - 1 {
                assert(before.contains(i));
                let k = choose|k: int| 0 <= k < before.len() && before[k] == i;
                assert(now[k] == i);
            } else {
                assert(now[now.len() - 1] == i);
            }
        }
    }
}

/// Sanitizing removes exactly the owned flags and the values paired with a
/// message-format flag, and keeps every other token, in the order they came in.
pub proof fn lemma_sanitized_order(args: Seq<Seq<char>>)
    ensures
        kept_positions(args, args.len() as int).len() == sanitized(args).len(),
        forall|k: int|
            0 <= k < sanitized(args).len() ==> {
                &&& 0 <= #[trigger] kept_positions(args, args.len() as int)[k] < args.len()
                &&& !is_dropped(args, kept_positions(args, args.len() as int)[k])
                &&& sanitized(args)[k] == args[kept_positions(args, args.len() as int)[k]]
            },
        forall|j: int, k: int|
            0 <= j < k < sanitized(args).len() ==> #[trigger] kept_positions(
                args,
                args.len() as int,
            )[j] < #[trigger] kept_positions(args, args.len() as int)[k],
        forall|i: int|
            0 <= i < args.len() && !is_dropped(args, i) ==> #[trigger] kept_positions(
                args,
                args.len() as int,
            ).contains(i),
{
    lemma_sanitized_prefix_order(args, args.len() as int);
}

/// What passes through holds neither a release flag nor a message-format flag.
pub proof fn lemma_sanitized_has_no_owned_flag(args: Seq<Seq<char>>)
    ensures
        forall|k: int| 0 <= k < sanitized(args).len() ==> !is_owned_flag(#[trigger] sanitized(args)[k]),
        !sanitized(args).contains(release_flag()),
        !sanitized(args).contains(message_format_flag()),
{
    lemma_sanitized_order(args);
    let out = sanitized(args);
    let pos = kept_positions(args, args.len() as int);
    assert forall|k: int| 0 <= k < out.len() implies !is_owned_flag(#[trigger] out[k]) by {
        assert(!is_dropped(args, pos[k]));
        assert(out[k] == args[pos[k]]);
    }
}

/// Arguments that hold no owned flag pass through whole.
pub proof fn lemma_sanitized_clean_is_unchanged(args: Seq<Seq<char>>)
    requires
        forall|i: int| 0 <= i < args.len() ==> !is_owned_flag(#[trigger] args[i]),
    ensures
        sanitized(args) == args,
{
    lemma_clean_prefix_is_unchanged(args, args.len() as int);
    assert(args.take(args.len() as int) =~= args);
}

proof fn lemma_clean_prefix_is_unchanged(args: Seq<Seq<char>>, n: int)
    requires
        0 <= n <= args.len(),
        forall|i: int| 0 <= i < args.len() ==> !is_owned_flag(#[trigger] args[i]),
    ensures
        sanitized_prefix(args, n) == args.take(n),
    decreases n,
{
    if n > 0 {
        lemma_clean_prefix_is_unchanged(args, n - 1);
        assert(!is_owned_flag(args[n - 1]));
        if n - 1 > 0 {
            assert(!is_owned_flag(args[n - 2]));
        }
        assert(!is_format_value(args, n - 1));
        assert(args.take(n) =~= args.take(n - 1).push(args[n - 1]));
    } else {
        assert(args.take(n) =~= Seq::<Seq<char>>::empty());
    }
}

/// Sanitizing what was sanitized changes nothing.
pub proof fn lemma_sanitized_twice(args: Seq<Seq<char>>)
    ensures
        sanitized(sanitized(args)) == sanitized(args),
{
    lemma_sanitized_has_no_owned_flag(args);
    lemma_sanitized_clean_is_unchanged(sanitized(args));
}

/// Arguments that are safe to hand to cargo beside the ones this tool sets.
pub struct CargoArgs {
    filtered: Vec<String>,
    contains_target: bool,
    dropped: Vec<DroppedFlag>,
}

impl CargoArgs {
    /// The pass-through tokens, as sequences of characters.
    pub closed spec fn tokens(&self) -> Seq<Seq<char>> {
        views(self.filtered@)
    }

    /// Whether the caller named a target platform.
    pub closed spec fn has_target(&self) -> bool {
        self.contains_target
    }

    /// The owned flags that were dropped, in order.
    pub closed spec fn notices(&self) -> Seq<DroppedFlag> {
        self.dropped@
    }

    /// No owned flag is among the tokens, and the target mark agrees with them.
    pub open spec fn wf(&self) -> bool {
        &&& forall|k: int| 0 <= k < self.tokens().len() ==> !is_owned_flag(#[trigger] self.tokens()[k])
        &&& self.has_target() == self.tokens().contains(target_flag())
    }

    /// The pass-through tokens.
    pub fn filtered(&self) -> (tokens: &Vec<String>)
        ensures
            views(tokens@) == self.tokens(),
    {
        &self.filtered
    }

    /// Whether the caller named a target platform.
    pub fn contains_target(&self) -> (found: bool)
        ensures
            found == self.has_target(),
    {
        self.contains_target
    }

    /// The owned flags that were dropped; each one calls for a warning.
    pub fn dropped(&self) -> (flags: &Vec<DroppedFlag>)
        ensures
            flags@ == self.notices(),
    {
        &self.dropped
    }

    /// The pass-through tokens, given up by value.
    pub fn into_filtered(self) -> (tokens: Vec<String>)
        ensures
            views(tokens@) == self.tokens(),
    {
        self.filtered
    }
}

/// Sanitizes the caller's arguments. Never fails: a token that is not
/// recognized passes through.
pub fn parse_cargo_args(cargo_args: Vec<String>) -> (parsed: CargoArgs)
    ensures
        parsed.wf(),
        parsed.tokens() == sanitized(views(cargo_args@)),
        parsed.has_target() == sanitized(views(cargo_args@)).contains(target_flag()),
        parsed.notices() == dropped_flags(views(cargo_args@)),
{
    let ghost args = views(cargo_args@);
    let mut filtered: Vec<String> = Vec::new();
    let mut dropped: Vec<DroppedFlag> = Vec::new();
    let mut contains_target = false;
    let mut value_follows = false;
    for arg in it: cargo_args
        invariant
            it.seq() == cargo_args@,
            args == views(cargo_args@),
            views(filtered@) == sanitized_prefix(args, it.index() as int),
            dropped@ == dropped_flags_prefix(args, it.index() as int),
            contains_target == views(filtered@).contains(target_flag()),
            value_follows == (it.index() > 0 && args[it.index() - 1] == message_format_flag()
                && !is_format_value(args, it.index() - 1)),
            forall|k: int| 0 <= k < filtered@.len() ==> !is_owned_flag(#[trigger] views(filtered@)[k]),
    {
        let ghost i = it.index() as int;
        assert(0 <= i < args.len());
        assert(args[i] == arg@);
        assert(value_follows == is_format_value(args, i));
        proof {
            lemma_flags_distinct();
        }
        if value_follows {
            value_follows = false;
        } else if str_eq(arg.as_str(), "--release") {
            dropped.push(DroppedFlag::Release);
        } else if str_eq(arg.as_str(), "--message-format") {
            dropped.push(DroppedFlag::MessageFormat);
            value_follows = true;
        } else {
            if str_eq(arg.as_str(), "--target") {
                contains_target = true;
            }
            let ghost before = views(filtered@);
            filtered.push(arg);
            proof {
                let after = views(filtered@);
                assert(after =~= before.push(arg@));
                assert(after[after.len() - 1] == arg@);
                assert forall|k: int| 0 <= k < before.len() implies after[k] == before[k] by {}
                if before.contains(target_flag()) {
                    let k = choose|k: int| 0 <= k < before.len() && before[k] == target_flag();
                    assert(after[k] == target_flag());
                }
            }
        }
    }
    CargoArgs { filtered, contains_target, dropped }
}

} // verus!
