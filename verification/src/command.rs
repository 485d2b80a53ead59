use vstd::prelude::*;

verus! {

/// The fixed diagnostic line the command endpoint emits.
pub open spec fn command_line() -> Seq<char> {
    "I was invoked from JS!"@
}

/// The views of the lines of an output stream.
pub open spec fn views_of(out: Seq<String>) -> Seq<Seq<char>> {
    out.map_values(|s: String| s@)
}

/// The output stream after `n` further invocations of the command endpoint,
/// each of which appends the fixed line and nothing else.
pub open spec fn stream_after(out: Seq<Seq<char>>, n: nat) -> Seq<Seq<char>>
    decreases n,
{
    if n == 0 {
        out
    } else {
        stream_after(out, (n - 1) as nat).push(command_line())
    }
}

/// The command endpoint. It appends its fixed line to `out`, the caller's
/// model of the process's standard output stream, and touches nothing else:
/// it holds no state and sees no other component.
pub fn my_custom_command(out: &mut Vec<String>)
    ensures
        final(out)@.len() == old(out)@.len() + 1,
        final(out)@[old(out)@.len() as int]@ == command_line(),
        forall|i: int| 0 <= i < old(out)@.len() ==> final(out)@[i] == old(out)@[i],
        views_of(final(out)@) == stream_after(views_of(old(out)@), 1),
{
    let line: String = "I was invoked from JS!".to_owned();
    out.push(line);
    proof {
        assert(stream_after(views_of(old(out)@), 0) == views_of(old(out)@));
        assert(views_of(out@) =~= views_of(old(out)@).push(command_line()));
    }
}

/// Law: any number of invocations of the command endpoint only appends to
/// the output stream. Lines already emitted are untouched, and each
/// invocation contributes exactly one line, the fixed one.
pub proof fn lemma_command_append_only(out: Seq<Seq<char>>, n: nat)
    ensures
        stream_after(out, n).len() == out.len() + n,
        forall|i: int| 0 <= i < out.len() ==> stream_after(out, n)[i] == out[i],
        forall|i: int| out.len() <= i < out.len() + n ==> stream_after(out, n)[i] == command_line(),
    decreases n,
{
    if n > 0 {
        lemma_command_append_only(out, (n - 1) as nat);
    }
}

/// Law: the command endpoint is idempotent. Two invocations in sequence
/// produce the same line twice, with no further change to the stream, and
/// running them one after the other is the same as running the pair.
pub proof fn lemma_command_idempotent(out: Seq<Seq<char>>)
    ensures
        stream_after(out, 2) == stream_after(stream_after(out, 1), 1),
        stream_after(out, 2) == out.push(command_line()).push(command_line()),
        stream_after(out, 2)[out.len() as int] == stream_after(out, 2)[out.len() as int + 1],
{
    assert(stream_after(out, 0) == out);
    assert(stream_after(out, 1) == out.push(command_line()));
    assert(stream_after(out, 2) == stream_after(out, 1).push(command_line()));
    assert(stream_after(stream_after(out, 1), 0) == stream_after(out, 1));
}

} // verus!
