use vstd::prelude::*;

use crate::errors::MergeError;
use crate::manifest_doc::{
    dep_item, deps_keys, doc_has_deps_table, doc_text, has_deps_table, has_package_table,
    insert_dep, package_name_item, parse_doc, reflects_text, render_doc, same_outside_deps,
    set_package_name, text_deps, text_has_deps_table, text_has_package_table, text_package_name,
    text_rest, toml_parses,
};

verus! {

// ------------------------------------------------------------------------
// What the merge means.
// ------------------------------------------------------------------------

/// The dependency table the merge produces: the destination wins on every
/// key it declares, the source contributes only the keys the destination
/// does not declare.
pub open spec fn merged_deps(
    dst: Map<Seq<char>, Seq<char>>,
    src: Map<Seq<char>, Seq<char>>,
) -> Map<Seq<char>, Seq<char>> {
    Map::new(
        |k: Seq<char>| dst.dom().contains(k) || src.dom().contains(k),
        |k: Seq<char>| if dst.dom().contains(k) { dst[k] } else { src[k] },
    )
}

/// The identity name the merge produces: the destination's name whenever
/// the destination declares one and the source has a `package` table to
/// graft it into; otherwise the source's own name stands.
pub open spec fn merged_name(dst: Seq<char>, src: Seq<char>) -> Option<Seq<char>> {
    if text_package_name(dst) is Some && text_has_package_table(src) {
        text_package_name(dst)
    } else {
        text_package_name(src)
    }
}

/// The dependency table of the merged text.  Reconciliation happens only
/// when both texts carry a `dependencies` table: an absent source table is
/// not synthesized, and an absent destination table contributes nothing.
pub open spec fn merged_deps_of(dst: Seq<char>, src: Seq<char>) -> Map<Seq<char>, Seq<char>> {
    if text_has_deps_table(src) && text_has_deps_table(dst) {
        merged_deps(text_deps(dst), text_deps(src))
    } else {
        text_deps(src)
    }
}

/// The merge's full promise about the text it produces: the identity name
/// and the dependency table are reconciled, and everything else — every
/// section the merge does not know about — comes from the source text, not
/// from the destination.
pub open spec fn merge_spec(dst: Seq<char>, src: Seq<char>, out: Seq<char>) -> bool {
    &&& toml_parses(out)
    &&& text_package_name(out) == merged_name(dst, src)
    &&& text_deps(out) == merged_deps_of(dst, src)
    &&& text_has_package_table(out) == text_has_package_table(src)
    &&& text_has_deps_table(out) == text_has_deps_table(src)
    &&& text_rest(out) == text_rest(src)
}

/// Taking one more element of a sequence adds exactly that element to the
/// set of elements taken so far.
proof fn lemma_take_succ_to_set(s: Seq<Seq<char>>, i: int)
    requires
        0 <= i < s.len(),
    ensures
        s.take(i + 1).to_set() =~= s.take(i).to_set().insert(s[i]),
{
    assert forall|k: Seq<char>| s.take(i + 1).to_set().contains(k) implies s.take(
        i,
    ).to_set().insert(s[i]).contains(k) by {
        let w = choose|w: int| 0 <= w < i + 1 && #[trigger] s.take(i + 1)[w] == k;
        if w < i {
            assert(s.take(i)[w] == k);
            assert(s.take(i).contains(k));
        } else {
            assert(k == s[i]);
        }
    }
    assert forall|k: Seq<char>| s.take(i).to_set().insert(s[i]).contains(k) implies s.take(
        i + 1,
    ).to_set().contains(k) by {
        if s.take(i).to_set().contains(k) {
            let w = choose|w: int| 0 <= w < i && #[trigger] s.take(i)[w] == k;
            assert(s.take(i + 1)[w] == k);
        } else {
            assert(s.take(i + 1)[i] == k);
        }
        assert(s.take(i + 1).contains(k));
    }
}

// ------------------------------------------------------------------------
// The merge itself.
// ------------------------------------------------------------------------

/// Merges the destination document into the source document, in place.
///
/// The source document is the one being built up into the final state: the
/// destination's name becomes its name, and every dependency the
/// destination declares replaces the source's entry of that name — in
/// place, keeping the entry's formatting, so that merging a document with
/// an identical one reproduces it.  The caller is expected to serialize the
/// mutated source document over the destination file afterwards.
pub fn merge_documents(dst: &toml_edit::DocumentMut, src: &mut toml_edit::DocumentMut)
    requires
        reflects_text(*old(src)),
        reflects_text(*dst),
    ensures
        merge_spec(doc_text(*dst), doc_text(*old(src)), doc_text(*final(src))),
{
    // Identity substitution: the destination's name, grafted into the
    // source's package table when both sides allow it.
    if let Some(name) = package_name_item(dst) {
        if has_package_table(src) {
            set_package_name(src, name);
        }
    }

    let ghost base = doc_text(*src);

    // Dependency reconciliation: every dependency the destination declares
    // overrides the source's entry of that name, or joins the table when
    // the source has none.
    if has_deps_table(src) && has_deps_table(dst) {
        let keys = deps_keys(dst);
        let ghost keyseq = keys@.map_values(|k: String| k@);
        let ghost ddeps = text_deps(doc_text(*dst));
        let ghost sdeps = text_deps(base);

        let mut j: usize = 0;
        while j < keys.len()
            invariant
                j <= keys.len(),
                keyseq == keys@.map_values(|k: String| k@),
                keyseq.to_set() == ddeps.dom(),
                ddeps == text_deps(doc_text(*dst)),
                doc_has_deps_table(*dst),
                doc_has_deps_table(*src),
                toml_parses(doc_text(*src)),
                text_deps(doc_text(*src)) == sdeps.union_prefer_right(
                    ddeps.restrict(keyseq.take(j as int).to_set()),
                ),
                same_outside_deps(base, doc_text(*src)),
                j > 0 ==> text_has_deps_table(doc_text(*src)),
                j == 0 ==> doc_text(*src) == base,
            decreases keys.len() - j,
        {
            proof {
                assert(keyseq.to_set().contains(keyseq[j as int]));
            }
            let item = dep_item(dst, &keys[j]);
            match item {
                Some(it) => {
                    insert_dep(src, &keys[j], it);
                },
                None => {
                    proof {
                        assert(false);
                    }
                },
            }
            proof {
                lemma_take_succ_to_set(keyseq, j as int);
                assert(text_deps(doc_text(*src)) =~= sdeps.union_prefer_right(
                    ddeps.restrict(keyseq.take(j + 1).to_set()),
                ));
            }
            j = j + 1;
        }

        proof {
            assert(keyseq.take(keys.len() as int) == keyseq);
            assert(ddeps.restrict(keyseq.to_set()) =~= ddeps);
            assert(text_deps(doc_text(*src)) =~= merged_deps(ddeps, sdeps));
        }
    }
}

/// Merges two manifest texts: parses both, reconciles the identity name and
/// the dependency table, and returns the serialized form of the mutated
/// source document — the text meant to replace the destination file.
pub fn merge_manifest_texts(dst_text: &str, src_text: &str) -> (r: Result<String, MergeError>)
    ensures
        r is Ok <==> (toml_parses(dst_text@) && toml_parses(src_text@)),
        r is Ok ==> merge_spec(dst_text@, src_text@, r->Ok_0@),
        r is Err ==> r->Err_0 == MergeError::ManifestParseError,
{
    let dst = match parse_doc(dst_text) {
        Ok(d) => d,
        Err(_) => {
            return Err(MergeError::ManifestParseError);
        },
    };
    let mut src = match parse_doc(src_text) {
        Ok(d) => d,
        Err(_) => {
            return Err(MergeError::ManifestParseError);
        },
    };
    merge_documents(&dst, &mut src);
    Ok(render_doc(&src))
}

// ------------------------------------------------------------------------
// Laws.
// ------------------------------------------------------------------------

/// Merge key invariant: for all destination tables `dst` and source tables
/// `src`, the merged table's keys are exactly the union of the two key
/// sets, every key the destination declares maps to the destination's
/// value, and every other key maps to the source's original value.
pub proof fn lemma_merge_key_invariant(
    dst: Map<Seq<char>, Seq<char>>,
    src: Map<Seq<char>, Seq<char>>,
)
    ensures
        forall|k: Seq<char>| #[trigger]
            merged_deps(dst, src).dom().contains(k) <==> (src.dom().contains(k)
                || dst.dom().contains(k)),
        forall|k: Seq<char>|
            dst.dom().contains(k) ==> #[trigger] merged_deps(dst, src)[k] == dst[k],
        forall|k: Seq<char>|
            src.dom().contains(k) && !dst.dom().contains(k) ==> #[trigger] merged_deps(
                dst,
                src,
            )[k] == src[k],
{
}

/// Identity invariant: whenever the destination declares a name and the
/// source has a `package` table, the merged text's name is the
/// destination's, regardless of the source's own name.
pub proof fn lemma_identity_invariant(dst: Seq<char>, src: Seq<char>)
    requires
        text_package_name(dst) is Some,
        text_has_package_table(src),
    ensures
        merged_name(dst, src) == text_package_name(dst),
{
}

/// Idempotence: merging a text with itself changes nothing the model can
/// see — the name, the dependency table, and all other content of the
/// result are those of the input.  The statement is about the model, not
/// the bytes: reconciliation replaces each value in place and keeps every
/// entry's formatting, so a self-merge reproduces the input byte for byte
/// whenever parsing itself reproduces it (`toml_edit` re-renders only a
/// missing final newline and the order of dotted keys differently), but
/// that equality lives below what the contracts state, so the tests check
/// it on rendered texts.
pub proof fn lemma_merge_idempotent(t: Seq<char>, out: Seq<char>)
    requires
        merge_spec(t, t, out),
    ensures
        text_package_name(out) == text_package_name(t),
        text_deps(out) =~= text_deps(t),
        text_has_package_table(out) == text_has_package_table(t),
        text_has_deps_table(out) == text_has_deps_table(t),
        text_rest(out) == text_rest(t),
{
    assert(merged_deps_of(t, t) =~= text_deps(t));
}

/// Non-destructive passthrough, and its direction: everything outside the
/// identity name and the dependency table comes from the source text, so a
/// section only the destination carries does not survive the merge.
pub proof fn lemma_source_wins_passthrough(dst: Seq<char>, src: Seq<char>, out: Seq<char>)
    requires
        merge_spec(dst, src, out),
    ensures
        text_rest(out) == text_rest(src),
{
}

} // verus!
