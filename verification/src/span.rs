//! The per-context stack of currently-open spans and the shared renderer
//! that both sinks use: the chain is walked root to leaf, the root prefixed
//! with a leading marker, every later entry with a directional separator.

use vstd::prelude::*;

verus! {

/// The names of a sequence of spans, as character sequences.
pub open spec fn names_view(v: Seq<String>) -> Seq<Seq<char>> {
    v.map_values(|n: String| n@)
}

proof fn lemma_names_view_push(v: Seq<String>, x: String)
    ensures
        names_view(v.push(x)) == names_view(v).push(x@),
{
    assert(names_view(v.push(x)) =~~= names_view(v).push(x@));
}

/// The stack of spans open in one logical call context, root first. Entering
/// a scope pushes its name, leaving it pops the most recent one: a strict
/// LIFO discipline.
pub struct SpanStack {
    names: Vec<String>,
}

impl View for SpanStack {
    type V = Seq<Seq<char>>;

    closed spec fn view(&self) -> Seq<Seq<char>> {
        names_view(self.names@)
    }
}

impl SpanStack {
    /// An empty stack: no span is open.
    pub fn new() -> (r: SpanStack)
        ensures
            r@ == Seq::<Seq<char>>::empty(),
    {
        let r = SpanStack { names: Vec::new() };
        proof {
            assert(r@ =~~= Seq::<Seq<char>>::empty());
        }
        r
    }

    /// The nesting depth: how many spans are open.
    pub fn depth(&self) -> (r: usize)
        ensures
            r == self@.len(),
    {
        self.names.len()
    }

    /// Pushes the name of a newly entered span.
    pub fn enter(&mut self, name: String)
        ensures
            final(self)@ == old(self)@.push(name@),
    {
        proof {
            lemma_names_view_push(self.names@, name);
        }
        self.names.push(name);
    }

    /// Pops the most recently entered span; on an empty stack nothing
    /// happens and nothing is returned.
    pub fn exit(&mut self) -> (r: Option<String>)
        ensures
            old(self)@.len() == 0 ==> final(self)@ == old(self)@ && r is None,
            old(self)@.len() > 0 ==> final(self)@ == old(self)@.drop_last() && (r matches Some(n)
                && n@ == old(self)@.last()),
    {
        let r = self.names.pop();
        proof {
            if old(self)@.len() > 0 {
                assert(self@ =~~= old(self)@.drop_last());
            }
        }
        r
    }

    /// A copy of the stack, taken when an event is constructed.
    pub fn snapshot(&self) -> (r: SpanStack)
        ensures
            r@ == self@,
    {
        let mut names: Vec<String> = Vec::new();
        let mut i: usize = 0;
        while i < self.names.len()
            invariant
                i <= self.names.len(),
                names_view(names@) == names_view(self.names@).take(i as int),
            decreases self.names.len() - i,
        {
            let n = self.names[i].clone();
            proof {
                lemma_names_view_push(names@, n);
                assert(names_view(names@).push(n@) =~~= names_view(self.names@).take(i as int + 1));
            }
            names.push(n);
            i = i + 1;
        }
        let r = SpanStack { names };
        proof {
            assert(names_view(self.names@).take(self.names@.len() as int) =~~= self@);
        }
        r
    }

    /// Renders the chain of open spans.
    pub fn render(&self) -> (r: String)
        ensures
            r@ == render_spans_spec(self@),
    {
        render_spans(&self.names)
    }
}

/// The rendering of every entry after the root: each is preceded by the
/// directional separator.
pub open spec fn render_tail(names: Seq<Seq<char>>) -> Seq<char>
    decreases names.len(),
{
    if names.len() == 0 {
        Seq::empty()
    } else {
        " -> "@ + names[0] + render_tail(names.skip(1))
    }
}

/// The rendering of a span chain, root to leaf: empty for an empty stack,
/// otherwise the leading marker, the root's name, and each further name
/// preceded by the directional separator.
pub open spec fn render_spans_spec(names: Seq<Seq<char>>) -> Seq<char> {
    if names.len() == 0 {
        Seq::empty()
    } else {
        "... "@ + names[0] + render_tail(names.skip(1))
    }
}

proof fn lemma_tail_snoc(s: Seq<Seq<char>>, x: Seq<char>)
    ensures
        render_tail(s.push(x)) == render_tail(s) + " -> "@ + x,
    decreases s.len(),
{
    if s.len() == 0 {
        assert(s.push(x)[0] == x);
        assert(s.push(x).skip(1) =~~= Seq::<Seq<char>>::empty());
        assert(render_tail(s.push(x).skip(1)) == Seq::<char>::empty());
        assert(render_tail(s.push(x)) =~= render_tail(s) + " -> "@ + x);
    } else {
        assert(s.push(x)[0] == s[0]);
        assert(s.push(x).skip(1) =~~= s.skip(1).push(x));
        lemma_tail_snoc(s.skip(1), x);
        assert(render_tail(s.push(x)) =~= render_tail(s) + " -> "@ + x);
    }
}

/// Extending a chain by one span appends the separator and the new name (or
/// the leading marker and the name, when the chain was empty).
pub proof fn lemma_render_snoc(s: Seq<Seq<char>>, x: Seq<char>)
    ensures
        s.len() == 0 ==> render_spans_spec(s.push(x)) == "... "@ + x,
        s.len() > 0 ==> render_spans_spec(s.push(x)) == render_spans_spec(s) + " -> "@ + x,
{
    if s.len() == 0 {
        assert(s.push(x)[0] == x);
        assert(s.push(x).skip(1) =~~= Seq::<Seq<char>>::empty());
        assert(render_tail(s.push(x).skip(1)) == Seq::<char>::empty());
        assert(render_spans_spec(s.push(x)) =~= "... "@ + x);
    } else {
        assert(s.push(x)[0] == s[0]);
        assert(s.push(x).skip(1) =~~= s.skip(1).push(x));
        lemma_tail_snoc(s.skip(1), x);
        assert(render_spans_spec(s.push(x)) =~= render_spans_spec(s) + " -> "@ + x);
    }
}

/// Renders a span chain, oldest name first.
fn render_spans(names: &Vec<String>) -> (r: String)
    ensures
        r@ == render_spans_spec(names_view(names@)),
{
    let ghost views = names_view(names@);
    let mut s = String::new();
    let mut i: usize = 0;
    while i < names.len()
        invariant
            i <= names.len(),
            views == names_view(names@),
            s@ == render_spans_spec(views.take(i as int)),
        decreases names.len() - i,
    {
        if i == 0 {
            s.append("... ");
        } else {
            s.append(" -> ");
        }
        s.append(names[i].as_str());
        proof {
            assert(views.take(i as int + 1) =~~= views.take(i as int).push(views[i as int]));
            lemma_render_snoc(views.take(i as int), views[i as int]);
            assert(s@ =~= render_spans_spec(views.take(i as int + 1)));
        }
        i = i + 1;
    }
    proof {
        assert(views.take(names@.len() as int) =~~= views);
    }
    s
}

/// The total length of the names of a chain.
pub open spec fn names_len(s: Seq<Seq<char>>) -> nat
    decreases s.len(),
{
    if s.len() == 0 {
        0
    } else {
        s[0].len() + names_len(s.skip(1))
    }
}

/// Where segment `k` of a rendered chain starts: each earlier segment holds
/// a four-character marker and one name.
pub open spec fn entry_off(s: Seq<Seq<char>>, k: int) -> int
    decreases k,
{
    if k <= 0 {
        0
    } else {
        4 + s[0].len() + entry_off(s.skip(1), k - 1)
    }
}

proof fn lemma_tail_positions(s: Seq<Seq<char>>)
    ensures
        render_tail(s).len() == 4 * s.len() + names_len(s),
        forall|k: int|
            #![trigger entry_off(s, k)]
            0 <= k < s.len() ==> {
                &&& 0 <= entry_off(s, k)
                &&& entry_off(s, k) + 4 + s[k].len() <= render_tail(s).len()
                &&& render_tail(s).subrange(entry_off(s, k), entry_off(s, k) + 4) == " -> "@
                &&& render_tail(s).subrange(entry_off(s, k) + 4, entry_off(s, k) + 4 + s[k].len())
                    == s[k]
            },
    decreases s.len(),
{
    reveal_strlit(" -> ");
    if s.len() > 0 {
        let rest = s.skip(1);
        lemma_tail_positions(rest);
        assert forall|k: int| #![trigger entry_off(s, k)] 0 <= k < s.len() implies {
            &&& 0 <= entry_off(s, k)
            &&& entry_off(s, k) + 4 + s[k].len() <= render_tail(s).len()
            &&& render_tail(s).subrange(entry_off(s, k), entry_off(s, k) + 4) == " -> "@
            &&& render_tail(s).subrange(entry_off(s, k) + 4, entry_off(s, k) + 4 + s[k].len())
                == s[k]
        } by {
            if k == 0 {
                assert(render_tail(s).subrange(0, 4) =~= " -> "@);
                assert(render_tail(s).subrange(4, 4 + s[0].len() as int) =~= s[0]);
            } else {
                let c = 4 + s[0].len() as int;
                let o = entry_off(rest, k - 1);
                assert(entry_off(s, k) == c + o);
                assert(rest[k - 1] == s[k]);
                assert(render_tail(s).subrange(c + o, c + o + 4) =~= render_tail(rest).subrange(
                    o,
                    o + 4,
                ));
                assert(render_tail(s).subrange(c + o + 4, c + o + 4 + s[k].len())
                    =~= render_tail(rest).subrange(o + 4, o + 4 + rest[k - 1].len()));
            }
        }
    }
}

/// The shape of a rendered chain of `n` spans: empty when `n` is zero;
/// otherwise `4 n` marker characters plus the names' own characters, the one
/// leading marker at the very start, one directional separator before each
/// of the other `n - 1` names, and the names themselves in root-to-leaf
/// order at their segments' positions.
pub proof fn lemma_render_shape(names: Seq<Seq<char>>)
    ensures
        names.len() == 0 ==> render_spans_spec(names) == Seq::<char>::empty(),
        render_spans_spec(names).len() == 4 * names.len() + names_len(names),
        names.len() >= 1 ==> render_spans_spec(names).subrange(0, 4) == "... "@,
        forall|k: int|
            #![trigger entry_off(names, k)]
            0 <= k < names.len() ==> {
                &&& 0 <= entry_off(names, k)
                &&& entry_off(names, k) + 4 + names[k].len() <= render_spans_spec(names).len()
                &&& (k >= 1 ==> render_spans_spec(names).subrange(
                    entry_off(names, k),
                    entry_off(names, k) + 4,
                ) == " -> "@)
                &&& render_spans_spec(names).subrange(
                    entry_off(names, k) + 4,
                    entry_off(names, k) + 4 + names[k].len(),
                ) == names[k]
            },
{
    reveal_strlit("... ");
    reveal_strlit(" -> ");
    if names.len() > 0 {
        let rest = names.skip(1);
        lemma_tail_positions(rest);
        assert(render_spans_spec(names).subrange(0, 4) =~= "... "@);
        assert forall|k: int| #![trigger entry_off(names, k)] 0 <= k < names.len() implies {
            &&& 0 <= entry_off(names, k)
            &&& entry_off(names, k) + 4 + names[k].len() <= render_spans_spec(names).len()
            &&& (k >= 1 ==> render_spans_spec(names).subrange(
                entry_off(names, k),
                entry_off(names, k) + 4,
            ) == " -> "@)
            &&& render_spans_spec(names).subrange(
                entry_off(names, k) + 4,
                entry_off(names, k) + 4 + names[k].len(),
            ) == names[k]
        } by {
            if k == 0 {
                assert(render_spans_spec(names).subrange(4, 4 + names[0].len() as int) =~= names[
                    0
                ]);
            } else {
                let c = 4 + names[0].len() as int;
                let o = entry_off(rest, k - 1);
                assert(entry_off(names, k) == c + o);
                assert(rest[k - 1] == names[k]);
                assert(render_spans_spec(names).subrange(c + o, c + o + 4)
                    =~= render_tail(rest).subrange(o, o + 4));
                assert(render_spans_spec(names).subrange(c + o + 4, c + o + 4 + names[k].len())
                    =~= render_tail(rest).subrange(o + 4, o + 4 + rest[k - 1].len()));
            }
        }
    }
}

} // verus!
