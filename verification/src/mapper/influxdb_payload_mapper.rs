use vstd::prelude::*;
use vstd::string::StringExecFns;

verus! {

/// The newline-joined concatenation of `parts`, in order: empty for no
/// parts, a single part unchanged, and otherwise the parts separated by
/// single newlines. Nothing is deduplicated or reordered.
pub open spec fn joined_with_newlines(parts: Seq<Seq<char>>) -> Seq<char>
    decreases parts.len(),
{
    if parts.len() == 0 {
        Seq::<char>::empty()
    } else if parts.len() == 1 {
        parts[0]
    } else {
        parts[0] + "\n"@ + joined_with_newlines(parts.drop_first())
    }
}

/// Appending one more part to a join appends a newline and the part, except
/// to an empty join, which becomes the part itself.
pub proof fn lemma_joined_with_newlines_push(parts: Seq<Seq<char>>, part: Seq<char>)
    ensures
        joined_with_newlines(parts.push(part)) == if parts.len() == 0 {
            part
        } else {
            joined_with_newlines(parts) + "\n"@ + part
        },
    decreases parts.len(),
{
    if parts.len() == 0 {
        assert(parts.push(part)[0] == part);
        assert(joined_with_newlines(parts.push(part)) == part);
    } else if parts.len() == 1 {
        assert(parts.push(part)[0] == parts[0]);
        assert(parts.push(part).drop_first() =~= seq![part]);
        assert(joined_with_newlines(parts.push(part).drop_first()) == part);
        assert(joined_with_newlines(parts.push(part)) =~= joined_with_newlines(parts) + "\n"@
            + part);
    } else {
        assert(parts.push(part).drop_first() =~= parts.drop_first().push(part));
        lemma_joined_with_newlines_push(parts.drop_first(), part);
        assert(joined_with_newlines(parts.push(part)) =~= joined_with_newlines(parts) + "\n"@
            + part);
    }
}

/// Two renderings joined are the first, one newline, then the second.
pub proof fn lemma_joined_with_newlines_pair(first: Seq<char>, second: Seq<char>)
    ensures
        joined_with_newlines(seq![first, second]) == first + "\n"@ + second,
{
    assert(seq![first, second].drop_first() =~= seq![second]);
    assert(seq![second][0] == second);
    assert(joined_with_newlines(seq![second]) == second);
    assert(seq![first, second][0] == first);
    assert(joined_with_newlines(seq![first, second]) =~= first + "\n"@ + second);
}

/// Joins the given strings with single newlines, preserving their order.
pub fn join_lines(parts: &Vec<String>) -> (r: String)
    ensures
        r@ == joined_with_newlines(parts@.map_values(|s: String| s@)),
{
    let ghost views = parts@.map_values(|s: String| s@);
    let mut r = String::new();
    let mut i: usize = 0;
    while i < parts.len()
        invariant
            i <= parts.len(),
            views == parts@.map_values(|s: String| s@),
            r@ == joined_with_newlines(views.take(i as int)),
        decreases parts.len() - i,
    {
        if i > 0 {
            r.append("\n");
        }
        r.append(parts[i].as_str());
        proof {
            lemma_joined_with_newlines_push(views.take(i as int), views[i as int]);
            assert(views.take(i as int).push(views[i as int]) =~= views.take(i as int + 1));
            assert(r@ =~= joined_with_newlines(views.take(i as int + 1)));
        }
        i = i + 1;
    }
    proof {
        assert(views.take(parts@.len() as int) =~= views);
    }
    r
}

/// The caller-supplied conversion of domain records to the wire body: the
/// capability the library depends on but does not implement. An
/// implementation chooses how one record is rendered and states that choice
/// as `item_view`; the batch conversion is then owed the newline-joined
/// concatenation of the records' individual renderings, in input order, with
/// no deduplication, reordering or filtering.
pub trait InfluxDbPayloadMapper<T> {
    /// The rendering of one record, as the implementation defines it: the
    /// mathematical function that `item` computes.
    spec fn item_view(&self, payload: T) -> Seq<char>;

    /// Renders one record.
    fn item(&self, payload: T) -> (r: String)
        ensures
            r@ == self.item_view(payload),
    ;

    /// Renders a batch: each record's individual rendering, joined with
    /// newlines, preserving input order and keeping duplicates. A batch of
    /// one record has no separator, and an empty batch renders empty.
    fn items(&self, payloads: Vec<T>) -> (r: String)
        ensures
            r@ == joined_with_newlines(payloads@.map_values(|p: T| self.item_view(p))),
    {
        let ghost mapped = payloads@.map_values(|p: T| self.item_view(p));
        let mut remaining = payloads;
        let mut bodies: Vec<String> = Vec::new();
        while remaining.len() > 0
            invariant
                mapped == bodies@.map_values(|s: String| s@) + remaining@.map_values(
                    |p: T| self.item_view(p),
                ),
            decreases remaining.len(),
        {
            let ghost old_bodies = bodies@;
            let ghost old_remaining = remaining@;
            let payload = remaining.remove(0);
            let body = self.item(payload);
            bodies.push(body);
            proof {
                assert(old_remaining.map_values(|p: T| self.item_view(p))
                    =~= seq![self.item_view(payload)] + remaining@.map_values(
                    |p: T| self.item_view(p),
                ));
                assert(bodies@.map_values(|s: String| s@) =~= old_bodies.map_values(
                    |s: String| s@,
                ).push(body@));
                assert(bodies@.map_values(|s: String| s@) + remaining@.map_values(
                    |p: T| self.item_view(p),
                ) =~= mapped);
            }
        }
        proof {
            assert(mapped =~= bodies@.map_values(|s: String| s@));
        }
        join_lines(&bodies)
    }
}

} // verus!
