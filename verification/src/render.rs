//! The tree renderer: walks a [`StyleTree`] and emits CSS text, compact or
//! indented, resolving property keys through the property-name table and
//! rewriting selectors when a namespace is configured.
//!
//! Every rendering function is specified against the recursive spec
//! functions below, which define the output text exactly.

use vstd::prelude::*;

use crate::num::spec_bool_str;
use crate::num::spec_int_str;
use crate::style::spec_resolve;
use crate::style::spec_table;
use crate::style::PropertyTable;
use crate::tree::CssError;
use crate::tree::LeafValue;
use crate::tree::PropertyValue;
use crate::tree::SpecCssError;
use crate::tree::StyleBody;
use crate::tree::StyleTree;

verus! {

/// An optional string as an optional character sequence.
pub open spec fn opt_str_view(o: Option<&str>) -> Option<Seq<char>> {
    match o {
        Some(s) => Some(s@),
        None => None,
    }
}

/// The rendered text of one leaf value.
pub open spec fn spec_leaf(v: LeafValue) -> Seq<char> {
    match v {
        LeafValue::Bool(b) => spec_bool_str(b),
        LeafValue::Int(i) => spec_int_str(i as int),
        LeafValue::Text(s) => s@,
    }
}

/// The selector as emitted: rewritten when a namespace is configured,
/// verbatim otherwise.
pub open spec fn spec_emitted_selector(ns: Option<Seq<char>>, sel: Seq<char>) -> Seq<char> {
    match ns {
        Some(n) => crate::spec_selector_namespaced(n, sel),
        None => sel,
    }
}

/// One property line: `{ind}{name}: {value};` plus a newline when indented,
/// `{name}:{value};` when compact.
pub open spec fn spec_line(name: Seq<char>, v: LeafValue, pretty: bool, ind: Seq<char>) -> Seq<
    char,
> {
    if pretty {
        ind + name + ": "@ + spec_leaf(v) + ";"@ + "\n"@
    } else {
        name + ":"@ + spec_leaf(v) + ";"@
    }
}

/// How one `(key, value)` pair of a body renders at inner indent `ind`.
/// A leaf becomes a property line, its key resolved through the table;
/// in strict mode an unresolvable key is the `UnknownProperty` error, in
/// lenient mode it passes through unchanged.  A nested body becomes a full
/// selector block one level deeper.
pub open spec fn spec_render_pair(
    entry: (String, PropertyValue),
    ns: Option<Seq<char>>,
    sel: Option<Seq<char>>,
    pretty: bool,
    ind: Seq<char>,
    strict: bool,
) -> Result<Seq<char>, SpecCssError>
    decreases entry,
{
    match entry.1 {
        PropertyValue::Leaf(l) => match spec_resolve(spec_table(), entry.0@) {
            Some(name) => Ok(spec_line(name, l, pretty, ind)),
            None => if strict {
                Err(SpecCssError::UnknownProperty { key: entry.0@, selector: sel })
            } else {
                Ok(spec_line(entry.0@, l, pretty, ind))
            },
        },
        PropertyValue::Nested(sub) => spec_render_block(entry.0@, sub, ns, pretty, ind, strict),
    }
}

/// The pairs of one body in order, concatenated; the first error aborts.
pub open spec fn spec_render_pairs(
    entries: Seq<(String, PropertyValue)>,
    ns: Option<Seq<char>>,
    sel: Option<Seq<char>>,
    pretty: bool,
    ind: Seq<char>,
    strict: bool,
) -> Result<Seq<char>, SpecCssError>
    decreases entries,
{
    if entries.len() == 0 {
        Ok(Seq::<char>::empty())
    } else {
        match spec_render_pairs(entries.drop_last(), ns, sel, pretty, ind, strict) {
            Err(e) => Err(e),
            Ok(prefix) => match spec_render_pair(entries.last(), ns, sel, pretty, ind, strict) {
                Err(e) => Err(e),
                Ok(s) => Ok(prefix + s),
            },
        }
    }
}

/// One selector block with header indent `ind`: the emitted selector, the
/// opening brace, the body one level deeper, and the closing brace, with
/// spacing and newlines in indented mode only.
pub open spec fn spec_render_block(
    sel: Seq<char>,
    sub: StyleBody,
    ns: Option<Seq<char>>,
    pretty: bool,
    ind: Seq<char>,
    strict: bool,
) -> Result<Seq<char>, SpecCssError>
    decreases sub,
{
    let shown = spec_emitted_selector(ns, sel);
    match spec_render_pairs(sub.entries@, ns, Some(sel), pretty, ind + "    "@, strict) {
        Err(e) => Err(e),
        Ok(body) => Ok(
            if pretty {
                ind + shown + " {"@ + "\n"@ + body + ind + "}"@ + "\n"@
            } else {
                shown + "{"@ + body + "}"@
            },
        ),
    }
}

/// The `(selector, body)` entries of a tree in order, each a block at
/// header indent `ind`, concatenated; the first error aborts.
pub open spec fn spec_render_blocks(
    entries: Seq<(String, StyleBody)>,
    ns: Option<Seq<char>>,
    pretty: bool,
    ind: Seq<char>,
    strict: bool,
) -> Result<Seq<char>, SpecCssError>
    decreases entries,
{
    if entries.len() == 0 {
        Ok(Seq::<char>::empty())
    } else {
        match spec_render_blocks(entries.drop_last(), ns, pretty, ind, strict) {
            Err(e) => Err(e),
            Ok(prefix) => match spec_render_block(
                entries.last().0@,
                entries.last().1,
                ns,
                pretty,
                ind,
                strict,
            ) {
                Err(e) => Err(e),
                Ok(s) => Ok(prefix + s),
            },
        }
    }
}

/// The whole render of a tree under `(namespace, pretty, strict)` starting
/// at `indent` levels: the blocks in order, preceded by one newline in
/// indented mode (each block already ends with its own newline there).
pub open spec fn spec_render(
    tree: StyleTree,
    ns: Option<Seq<char>>,
    pretty: bool,
    indent: nat,
    strict: bool,
) -> Result<Seq<char>, SpecCssError> {
    match spec_render_blocks(tree.entries@, ns, pretty, crate::spec_indent(indent, pretty), strict) {
        Err(e) => Err(e),
        Ok(s) => Ok(
            if pretty {
                "\n"@ + s
            } else {
                s
            },
        ),
    }
}

/// Rendering is deterministic: any two renders of the same immutable tree
/// under identical configuration yield byte-identical text, because the
/// output is pinned to a function of the inputs alone.
pub proof fn lemma_render_deterministic(
    tree: StyleTree,
    ns: Option<Seq<char>>,
    pretty: bool,
    indent: nat,
    strict: bool,
    r1: Seq<char>,
    r2: Seq<char>,
)
    requires
        spec_render(tree, ns, pretty, indent, strict) == Ok::<Seq<char>, SpecCssError>(r1),
        spec_render(tree, ns, pretty, indent, strict) == Ok::<Seq<char>, SpecCssError>(r2),
    ensures
        r1 == r2,
{
}

// ---------------------------------------------------------------------------
// An error of a prefix is the error of the whole sequence.
// ---------------------------------------------------------------------------

proof fn lemma_pairs_prefix_err(
    entries: Seq<(String, PropertyValue)>,
    m: int,
    ns: Option<Seq<char>>,
    sel: Option<Seq<char>>,
    pretty: bool,
    ind: Seq<char>,
    strict: bool,
    e: SpecCssError,
)
    requires
        0 <= m <= entries.len(),
        spec_render_pairs(entries.take(m), ns, sel, pretty, ind, strict) == Err::<
            Seq<char>,
            SpecCssError,
        >(e),
    ensures
        spec_render_pairs(entries, ns, sel, pretty, ind, strict) == Err::<
            Seq<char>,
            SpecCssError,
        >(e),
    decreases entries.len() - m,
{
    if m == entries.len() {
        assert(entries.take(m) =~= entries);
    } else {
        assert(entries.drop_last().take(m) =~= entries.take(m));
        lemma_pairs_prefix_err(entries.drop_last(), m, ns, sel, pretty, ind, strict, e);
    }
}

proof fn lemma_blocks_prefix_err(
    entries: Seq<(String, StyleBody)>,
    m: int,
    ns: Option<Seq<char>>,
    pretty: bool,
    ind: Seq<char>,
    strict: bool,
    e: SpecCssError,
)
    requires
        0 <= m <= entries.len(),
        spec_render_blocks(entries.take(m), ns, pretty, ind, strict) == Err::<
            Seq<char>,
            SpecCssError,
        >(e),
    ensures
        spec_render_blocks(entries, ns, pretty, ind, strict) == Err::<Seq<char>, SpecCssError>(e),
    decreases entries.len() - m,
{
    if m == entries.len() {
        assert(entries.take(m) =~= entries);
    } else {
        assert(entries.drop_last().take(m) =~= entries.take(m));
        lemma_blocks_prefix_err(entries.drop_last(), m, ns, pretty, ind, strict, e);
    }
}

// ---------------------------------------------------------------------------
// Lenient rendering is total: with strictness off, no input ever fails.
// ---------------------------------------------------------------------------

/// With strictness off, rendering one pair cannot fail.
pub proof fn lemma_lenient_pair_total(
    entry: (String, PropertyValue),
    ns: Option<Seq<char>>,
    sel: Option<Seq<char>>,
    pretty: bool,
    ind: Seq<char>,
)
    ensures
        spec_render_pair(entry, ns, sel, pretty, ind, false) is Ok,
    decreases entry,
{
    match entry.1 {
        PropertyValue::Leaf(l) => {},
        PropertyValue::Nested(sub) => {
            lemma_lenient_pairs_total(sub.entries@, ns, Some(entry.0@), pretty, ind + "    "@);
        },
    }
}

/// With strictness off, rendering a body cannot fail.
pub proof fn lemma_lenient_pairs_total(
    entries: Seq<(String, PropertyValue)>,
    ns: Option<Seq<char>>,
    sel: Option<Seq<char>>,
    pretty: bool,
    ind: Seq<char>,
)
    ensures
        spec_render_pairs(entries, ns, sel, pretty, ind, false) is Ok,
    decreases entries,
{
    if entries.len() > 0 {
        lemma_lenient_pairs_total(entries.drop_last(), ns, sel, pretty, ind);
        lemma_lenient_pair_total(entries.last(), ns, sel, pretty, ind);
    }
}

/// With strictness off, rendering a sequence of blocks cannot fail.
pub proof fn lemma_lenient_blocks_total(
    entries: Seq<(String, StyleBody)>,
    ns: Option<Seq<char>>,
    pretty: bool,
    ind: Seq<char>,
)
    ensures
        spec_render_blocks(entries, ns, pretty, ind, false) is Ok,
    decreases entries,
{
    if entries.len() > 0 {
        lemma_lenient_blocks_total(entries.drop_last(), ns, pretty, ind);
        let last = entries.last();
        lemma_lenient_pairs_total(last.1.entries@, ns, Some(last.0@), pretty, ind + "    "@);
    }
}

/// With strictness off, rendering never fails: in lenient mode an unknown
/// property key passes through unchanged instead of raising an error.
pub proof fn lemma_lenient_render_total(
    tree: StyleTree,
    ns: Option<Seq<char>>,
    pretty: bool,
    indent: nat,
)
    ensures
        spec_render(tree, ns, pretty, indent, false) is Ok,
{
    lemma_lenient_blocks_total(tree.entries@, ns, pretty, crate::spec_indent(indent, pretty));
}

// ---------------------------------------------------------------------------
// The executable renderer.
// ---------------------------------------------------------------------------

fn leaf_str(v: &LeafValue) -> (r: String)
    ensures
        r@ == spec_leaf(*v),
{
    match v {
        LeafValue::Bool(b) => crate::num::bool_str(*b).to_owned(),
        LeafValue::Int(i) => crate::num::i64_dec_str(*i),
        LeafValue::Text(s) => s.clone(),
    }
}

pub(crate) fn render_pair(
    table: &PropertyTable,
    entry: &(String, PropertyValue),
    ns: Option<&str>,
    sel: Option<&str>,
    pretty: bool,
    ind: &str,
    strict: bool,
) -> (r: Result<String, CssError>)
    requires
        table@ == spec_table(),
    ensures
        r matches Ok(s) ==> spec_render_pair(
            *entry,
            opt_str_view(ns),
            opt_str_view(sel),
            pretty,
            ind@,
            strict,
        ) == Ok::<Seq<char>, SpecCssError>(s@),
        r matches Err(e) ==> spec_render_pair(
            *entry,
            opt_str_view(ns),
            opt_str_view(sel),
            pretty,
            ind@,
            strict,
        ) == Err::<Seq<char>, SpecCssError>(e@),
    decreases *entry,
{
    match &entry.1 {
        PropertyValue::Leaf(l) => {
            let name: String = match table.resolve(entry.0.as_str()) {
                Some(n) => n.to_owned(),
                None => {
                    if strict {
                        let sctx: Option<String> = match sel {
                            Some(s) => Some(s.to_owned()),
                            None => None,
                        };
                        return Err(
                            CssError::UnknownProperty { key: entry.0.clone(), selector: sctx },
                        );
                    }
                    entry.0.clone()
                },
            };
            let lv = leaf_str(l);
            let mut out = String::new();
            if pretty {
                out.append(ind);
                out.append(name.as_str());
                out.append(": ");
                out.append(lv.as_str());
                out.append(";");
                out.append("\n");
            } else {
                out.append(name.as_str());
                out.append(":");
                out.append(lv.as_str());
                out.append(";");
            }
            proof {
                assert(out@ =~= spec_line(name@, *l, pretty, ind@));
            }
            Ok(out)
        },
        PropertyValue::Nested(sub) => {
            render_block(table, entry.0.as_str(), sub, ns, pretty, ind, strict)
        },
    }
}

pub(crate) fn render_pairs(
    table: &PropertyTable,
    entries: &Vec<(String, PropertyValue)>,
    ns: Option<&str>,
    sel: Option<&str>,
    pretty: bool,
    ind: &str,
    strict: bool,
) -> (r: Result<String, CssError>)
    requires
        table@ == spec_table(),
    ensures
        r matches Ok(s) ==> spec_render_pairs(
            entries@,
            opt_str_view(ns),
            opt_str_view(sel),
            pretty,
            ind@,
            strict,
        ) == Ok::<Seq<char>, SpecCssError>(s@),
        r matches Err(e) ==> spec_render_pairs(
            entries@,
            opt_str_view(ns),
            opt_str_view(sel),
            pretty,
            ind@,
            strict,
        ) == Err::<Seq<char>, SpecCssError>(e@),
    decreases *entries,
{
    let ghost nsv = opt_str_view(ns);
    let ghost selv = opt_str_view(sel);
    let mut buf = String::new();
    let mut i: usize = 0;
    while i < entries.len()
        invariant
            i <= entries.len(),
            table@ == spec_table(),
            nsv == opt_str_view(ns),
            selv == opt_str_view(sel),
            spec_render_pairs(entries@.take(i as int), nsv, selv, pretty, ind@, strict) == Ok::<
                Seq<char>,
                SpecCssError,
            >(buf@),
        decreases entries.len() - i,
    {
        proof {
            assert(entries@.take(i + 1).drop_last() =~= entries@.take(i as int));
            assert(entries@.take(i + 1).last() == entries@[i as int]);
        }
        match render_pair(table, &entries[i], ns, sel, pretty, ind, strict) {
            Ok(s) => {
                buf.append(s.as_str());
            },
            Err(e) => {
                proof {
                    lemma_pairs_prefix_err(
                        entries@,
                        i + 1,
                        nsv,
                        selv,
                        pretty,
                        ind@,
                        strict,
                        e@,
                    );
                }
                return Err(e);
            },
        }
        i = i + 1;
    }
    proof {
        assert(entries@.take(entries@.len() as int) =~= entries@);
    }
    Ok(buf)
}

pub(crate) fn render_block(
    table: &PropertyTable,
    sel_str: &str,
    sub: &StyleBody,
    ns: Option<&str>,
    pretty: bool,
    ind: &str,
    strict: bool,
) -> (r: Result<String, CssError>)
    requires
        table@ == spec_table(),
    ensures
        r matches Ok(s) ==> spec_render_block(
            sel_str@,
            *sub,
            opt_str_view(ns),
            pretty,
            ind@,
            strict,
        ) == Ok::<Seq<char>, SpecCssError>(s@),
        r matches Err(e) ==> spec_render_block(
            sel_str@,
            *sub,
            opt_str_view(ns),
            pretty,
            ind@,
            strict,
        ) == Err::<Seq<char>, SpecCssError>(e@),
    decreases *sub,
{
    let shown: String = match ns {
        Some(n) => crate::selector_namespaced(n, sel_str),
        None => sel_str.to_owned(),
    };
    let mut child_ind = ind.to_owned();
    child_ind.append("    ");
    let body = match render_pairs(
        table,
        &sub.entries,
        ns,
        Some(sel_str),
        pretty,
        child_ind.as_str(),
        strict,
    ) {
        Ok(b) => b,
        Err(e) => {
            return Err(e);
        },
    };
    let mut out = String::new();
    if pretty {
        out.append(ind);
        out.append(shown.as_str());
        out.append(" {");
        out.append("\n");
        out.append(body.as_str());
        out.append(ind);
        out.append("}");
        out.append("\n");
    } else {
        out.append(shown.as_str());
        out.append("{");
        out.append(body.as_str());
        out.append("}");
    }
    proof {
        let spec_out = spec_render_block(sel_str@, *sub, opt_str_view(ns), pretty, ind@, strict);
        assert(spec_out is Ok);
        assert(out@ =~= spec_out->Ok_0);
    }
    Ok(out)
}

/// Render a whole tree under the given configuration.  `namespace` rewrites
/// class selectors, `pretty` selects indented output, `current_indent` is
/// the starting indent level, and `strict` makes an unresolvable property
/// key an error instead of passing it through.
pub fn render(
    tree: &StyleTree,
    namespace: Option<&str>,
    pretty: bool,
    current_indent: usize,
    strict: bool,
) -> (r: Result<String, CssError>)
    ensures
        r matches Ok(s) ==> spec_render(
            *tree,
            opt_str_view(namespace),
            pretty,
            current_indent as nat,
            strict,
        ) == Ok::<Seq<char>, SpecCssError>(s@),
        r matches Err(e) ==> spec_render(
            *tree,
            opt_str_view(namespace),
            pretty,
            current_indent as nat,
            strict,
        ) == Err::<Seq<char>, SpecCssError>(e@),
{
    let table = PropertyTable::new();
    let ind = crate::make_indent(current_indent, pretty);
    let ghost nsv = opt_str_view(namespace);
    let mut blocks = String::new();
    let mut i: usize = 0;
    while i < tree.entries.len()
        invariant
            i <= tree.entries.len(),
            table@ == spec_table(),
            nsv == opt_str_view(namespace),
            ind@ == crate::spec_indent(current_indent as nat, pretty),
            spec_render_blocks(tree.entries@.take(i as int), nsv, pretty, ind@, strict) == Ok::<
                Seq<char>,
                SpecCssError,
            >(blocks@),
        decreases tree.entries.len() - i,
    {
        proof {
            assert(tree.entries@.take(i + 1).drop_last() =~= tree.entries@.take(i as int));
            assert(tree.entries@.take(i + 1).last() == tree.entries@[i as int]);
        }
        match render_block(
            &table,
            tree.entries[i].0.as_str(),
            &tree.entries[i].1,
            namespace,
            pretty,
            ind.as_str(),
            strict,
        ) {
            Ok(s) => {
                blocks.append(s.as_str());
            },
            Err(e) => {
                proof {
                    lemma_blocks_prefix_err(tree.entries@, i + 1, nsv, pretty, ind@, strict, e@);
                }
                return Err(e);
            },
        }
        i = i + 1;
    }
    proof {
        assert(tree.entries@.take(tree.entries@.len() as int) =~= tree.entries@);
    }
    if pretty {
        let mut out = "\n".to_owned();
        out.append(blocks.as_str());
        Ok(out)
    } else {
        Ok(blocks)
    }
}

} // verus!
