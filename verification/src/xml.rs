//! The XML document model used by the protocol: a tree of elements,
//! attributes and character data, a renderer to the compact wire form,
//! and a parser back from it.
//!
//! The wire form is deliberately minimal: elements render as
//! `<name a="v">children</name>`, or `<name a="v"/>` when childless,
//! and character data renders as itself.  Well-formed trees keep markup
//! characters out of names, attribute values and text, so rendering
//! needs no escaping and parsing inverts it exactly.

use vstd::prelude::*;

verus! {

broadcast use
    vstd::std_specs::vec::group_vec_axioms,
    vstd::seq::group_seq_axioms,
    vstd::seq_lib::group_seq_lib_default,
    vstd::string::group_string_axioms,
;

/// One attribute of an element, `name="value"`.
pub struct XmlAttr {
    pub name: String,
    pub value: String,
}

/// A node of an XML document: an element with attributes and children,
/// or a run of character data.
pub enum XmlNode {
    Elem { name: String, attrs: Vec<XmlAttr>, children: Vec<XmlNode> },
    Text { text: String },
}

/// The mathematical model of an attribute.
pub struct SpecAttr {
    pub name: Seq<char>,
    pub value: Seq<char>,
}

/// The mathematical model of a node.
pub enum SpecNode {
    Elem { name: Seq<char>, attrs: Seq<SpecAttr>, children: Seq<SpecNode> },
    Text { text: Seq<char> },
}

impl View for XmlAttr {
    type V = SpecAttr;

    open spec fn view(&self) -> SpecAttr {
        SpecAttr { name: self.name@, value: self.value@ }
    }
}

impl View for XmlNode {
    type V = SpecNode;

    open spec fn view(&self) -> SpecNode
        decreases self,
    {
        match self {
            XmlNode::Elem { name, attrs, children } => SpecNode::Elem {
                name: name@,
                attrs: attrs@.map_values(|a: XmlAttr| a@),
                children: Seq::new(
                    children.len() as nat,
                    |i: int|
                        if 0 <= i < children.len() {
                            children[i]@
                        } else {
                            SpecNode::Text { text: Seq::empty() }
                        },
                ),
            },
            XmlNode::Text { text } => SpecNode::Text { text: text@ },
        }
    }
}

// ------------------------------------------------------------------
// Well-formedness
// ------------------------------------------------------------------

/// Characters at which a name scan stops during parsing.
pub open spec fn name_stop_char(c: char) -> bool {
    c == ' ' || c == '/' || c == '>' || c == '=' || c == '"' || c == '<'
}

/// Characters acceptable in an element or attribute name.
pub open spec fn name_char(c: char) -> bool {
    !name_stop_char(c) && c != '&' && c != '\'' && c != '?' && c != '\t' && c != '\r' && c != '\n'
}

/// A usable element or attribute name: nonempty, made of name characters.
pub open spec fn wf_name(s: Seq<char>) -> bool {
    s.len() > 0 && forall|i: int| 0 <= i < s.len() ==> name_char(#[trigger] s[i])
}

/// Usable character data: nonempty.  Markup characters are escaped on
/// the way to the wire, so any content can stand.
pub open spec fn wf_text(s: Seq<char>) -> bool {
    s.len() > 0
}

/// Any attribute value can stand; only its name is constrained.
pub open spec fn wf_attr(a: SpecAttr) -> bool {
    wf_name(a.name)
}

/// A well-formed node renders to a form the parser inverts exactly.
pub open spec fn wf_node(n: SpecNode) -> bool
    decreases n,
{
    match n {
        SpecNode::Text { text } => wf_text(text),
        SpecNode::Elem { name, attrs, children } => {
            &&& wf_name(name)
            &&& forall|i: int| 0 <= i < attrs.len() ==> wf_attr(#[trigger] attrs[i])
            &&& forall|i: int| 0 <= i < children.len() ==> wf_node(#[trigger] children[i])
            &&& forall|i: int|
                0 <= i < children.len() - 1 ==> !((#[trigger] children[i]) is Text && children[i
                    + 1] is Text)
        },
    }
}

/// A well-formed child list: each node well formed, and no two adjacent
/// text nodes (adjacent text would merge when parsed back).
pub open spec fn wf_children(children: Seq<SpecNode>) -> bool {
    &&& forall|i: int| 0 <= i < children.len() ==> wf_node(#[trigger] children[i])
    &&& forall|i: int|
        0 <= i < children.len() - 1 ==> !((#[trigger] children[i]) is Text && children[i
            + 1] is Text)
}

// ------------------------------------------------------------------
// Rendering (the model)
// ------------------------------------------------------------------

/// The wire form of one attribute: a leading space, then the name and
/// the escaped value, `name="value"`.
pub open spec fn spec_render_attr(a: SpecAttr) -> Seq<char> {
    seq![' '] + a.name + seq!['=', '"'] + spec_escape(a.value) + seq!['"']
}

/// The wire form of an attribute list.
pub open spec fn spec_render_attrs(attrs: Seq<SpecAttr>) -> Seq<char>
    decreases attrs.len(),
{
    if attrs.len() == 0 {
        Seq::empty()
    } else {
        spec_render_attr(attrs[0]) + spec_render_attrs(attrs.drop_first())
    }
}

/// The wire form of a node.
pub open spec fn spec_render_node(n: SpecNode) -> Seq<char>
    decreases n,
{
    match n {
        SpecNode::Text { text } => spec_escape(text),
        SpecNode::Elem { name, attrs, children } => {
            if children.len() == 0 {
                seq!['<'] + name + spec_render_attrs(attrs) + seq!['/', '>']
            } else {
                seq!['<'] + name + spec_render_attrs(attrs) + seq!['>'] + spec_render_children(
                    children,
                ) + seq!['<', '/'] + name + seq!['>']
            }
        },
    }
}

/// The wire form of a child list: each child in order.
pub open spec fn spec_render_children(children: Seq<SpecNode>) -> Seq<char>
    decreases children,
{
    if children.len() == 0 {
        Seq::empty()
    } else {
        spec_render_node(children[0]) + spec_render_children(children.drop_first())
    }
}

/// Splitting a child list splits its rendering.
pub proof fn lemma_render_children_concat(a: Seq<SpecNode>, b: Seq<SpecNode>)
    ensures
        spec_render_children(a + b) == spec_render_children(a) + spec_render_children(b),
    decreases a.len(),
{
    if a.len() == 0 {
        assert(a + b =~= b);
        assert(spec_render_children(a) + spec_render_children(b) =~= spec_render_children(b));
    } else {
        assert((a + b).drop_first() =~= a.drop_first() + b);
        lemma_render_children_concat(a.drop_first(), b);
        assert(spec_render_node((a + b)[0]) + (spec_render_children(a.drop_first())
            + spec_render_children(b)) =~= (spec_render_node(a[0]) + spec_render_children(
            a.drop_first(),
        )) + spec_render_children(b));
    }
}

impl XmlNode {
    /// Append this node's wire form to `out`.
    #[verifier::loop_isolation(false)]
    #[verifier::rlimit(30)]
    pub fn render_into(&self, out: &mut String)
        ensures
            final(out)@ == old(out)@ + spec_render_node(self@),
        decreases self,
    {
        proof {
            reveal_strlit("<");
            reveal_strlit(">");
            reveal_strlit("</");
            reveal_strlit("/>");
            reveal_strlit(" ");
            reveal_strlit("=\"");
            reveal_strlit("\"");
        }
        match self {
            XmlNode::Text { text } => {
                append_escaped(out, text.as_str());
            },
            XmlNode::Elem { name, attrs, children } => {
                out.append("<");
                out.append(name.as_str());
                let ghost attrs_seq = self@->Elem_attrs;
                let mut i: usize = 0;
                proof {
                    assert(attrs_seq =~= attrs@.map_values(|a: XmlAttr| a@));
                    assert(attrs_seq.take(0) =~= Seq::<SpecAttr>::empty());
                }
                while i < attrs.len()
                    invariant
                        i <= attrs.len(),
                        attrs_seq == attrs@.map_values(|a: XmlAttr| a@),
                        out@ == old(out)@ + seq!['<'] + self@->Elem_name + spec_render_attrs(
                            attrs_seq.take(i as int),
                        ),
                    decreases attrs.len() - i,
                {
                    proof {
                        reveal_strlit(" ");
                        reveal_strlit("=\"");
                        reveal_strlit("\"");
                    }
                    out.append(" ");
                    out.append(attrs[i].name.as_str());
                    out.append("=\"");
                    append_escaped(out, attrs[i].value.as_str());
                    out.append("\"");
                    proof {
                        let pre = attrs_seq.take(i as int);
                        let post = attrs_seq.take(i + 1 as int);
                        assert(post =~= pre + seq![attrs_seq[i as int]]);
                        lemma_render_attrs_concat(pre, seq![attrs_seq[i as int]]);
                        assert(seq![attrs_seq[i as int]].drop_first() =~= Seq::<SpecAttr>::empty());
                        assert(spec_render_attrs(Seq::<SpecAttr>::empty()) =~= Seq::<char>::empty());
                        assert(spec_render_attrs(seq![attrs_seq[i as int]]) =~= spec_render_attr(
                            attrs_seq[i as int],
                        ) + Seq::<char>::empty());
                        assert(attrs_seq[i as int] == attrs[i as int]@);
                        assert(out@ =~= old(out)@ + seq!['<'] + self@->Elem_name
                            + spec_render_attrs(post));
                    }
                    i = i + 1;
                }
                proof {
                    assert(attrs_seq.take(attrs.len() as int) =~= attrs_seq);
                }
                if children.len() == 0 {
                    out.append("/>");
                    proof {
                        assert(self@->Elem_children.len() == 0);
                        assert(out@ =~= old(out)@ + spec_render_node(self@));
                    }
                } else {
                    out.append(">");
                    let ghost kids = self@->Elem_children;
                    let mut j: usize = 0;
                    proof {
                        assert(spec_render_children(kids.take(0)) =~= Seq::<char>::empty());
                    }
                    while j < children.len()
                        invariant
                            j <= children.len(),
                            kids == self@->Elem_children,
                            kids.len() == children.len(),
                            forall|k: int| 0 <= k < children.len() ==> kids[k] == children[k]@,
                            out@ == old(out)@ + seq!['<'] + self@->Elem_name + spec_render_attrs(
                                self@->Elem_attrs,
                            ) + seq!['>'] + spec_render_children(kids.take(j as int)),
                        decreases children.len() - j,
                    {
                        proof {
                            assert(decreases_to!(*self => children[j as int]));
                        }
                        children[j].render_into(out);
                        proof {
                            let pre = kids.take(j as int);
                            let post = kids.take(j + 1 as int);
                            assert(post =~= pre + seq![kids[j as int]]);
                            lemma_render_children_concat(pre, seq![kids[j as int]]);
                            assert(seq![kids[j as int]].drop_first() =~= Seq::<SpecNode>::empty());
                            assert(spec_render_children(Seq::<SpecNode>::empty()) =~= Seq::<
                                char,
                            >::empty());
                            assert(spec_render_children(seq![kids[j as int]])
                                =~= spec_render_node(kids[j as int]) + Seq::<char>::empty());
                            assert(out@ =~= old(out)@ + seq!['<'] + self@->Elem_name
                                + spec_render_attrs(self@->Elem_attrs) + seq!['>']
                                + spec_render_children(post));
                        }
                        j = j + 1;
                    }
                    out.append("</");
                    out.append(name.as_str());
                    out.append(">");
                    proof {
                        assert(kids.take(children.len() as int) =~= kids);
                        assert(out@ =~= old(out)@ + spec_render_node(self@));
                    }
                }
            },
        }
    }

    /// The wire form of this node as a fresh string.
    pub fn render(&self) -> (out: String)
        ensures
            out@ == spec_render_node(self@),
    {
        let mut out = String::new();
        self.render_into(&mut out);
        proof {
            assert(Seq::<char>::empty() + spec_render_node(self@) =~= spec_render_node(self@));
        }
        out
    }
}

// ------------------------------------------------------------------
// Parsing (the model)
// ------------------------------------------------------------------

/// The first position at or after `pos` whose character satisfies
/// `stop`, or the end of the input.
pub open spec fn spec_scan(s: Seq<char>, pos: int, stop: spec_fn(char) -> bool) -> int
    decreases s.len() - pos,
{
    if pos < 0 || pos >= s.len() {
        s.len() as int
    } else if stop(s[pos]) {
        pos
    } else {
        spec_scan(s, pos + 1, stop)
    }
}

/// A scan over `k` known non-stop characters followed by a stop (or the
/// end of input) lands exactly after those characters.
pub proof fn lemma_scan_exact(s: Seq<char>, pos: int, k: int, stop: spec_fn(char) -> bool)
    requires
        0 <= pos,
        0 <= k,
        pos + k <= s.len(),
        forall|i: int| pos <= i < pos + k ==> !stop(#[trigger] s[i]),
        pos + k == s.len() || stop(s[pos + k]),
    ensures
        spec_scan(s, pos, stop) == pos + k,
    decreases k,
{
    if k == 0 {
    } else {
        lemma_scan_exact(s, pos + 1, k - 1, stop);
    }
}

/// The scan result never runs past the end, nor backwards.
pub proof fn lemma_scan_bounds(s: Seq<char>, pos: int, stop: spec_fn(char) -> bool)
    requires
        0 <= pos <= s.len(),
    ensures
        pos <= spec_scan(s, pos, stop) <= s.len(),
    decreases s.len() - pos,
{
    if pos < s.len() && !stop(s[pos]) {
        lemma_scan_bounds(s, pos + 1, stop);
    }
}

/// One attribute list parsed from `pos`: as long as a space follows,
/// take ` name="value"`; stop at the first other character.
pub open spec fn spec_parse_attrs(s: Seq<char>, pos: int) -> Option<(Seq<SpecAttr>, int)>
    decreases s.len() - pos, 0int,
{
    if pos < 0 || pos >= s.len() {
        None
    } else if s[pos] != ' ' {
        Some((Seq::empty(), pos))
    } else {
        let nstart = pos + 1;
        let nend = spec_scan(s, nstart, |c: char| name_stop_char(c));
        if !(nstart < nend && nend + 1 < s.len() && s[nend] == '=' && s[nend + 1] == '"') {
            None
        } else {
            let vstart = nend + 2;
            let vend = spec_scan(s, vstart, |c: char| c == '"');
            if !(vstart <= vend && vend < s.len()) {
                None
            } else {
                match spec_unescape(s.subrange(vstart, vend)) {
                    None => None,
                    Some(value) => {
                        let attr = SpecAttr { name: s.subrange(nstart, nend), value };
                        match spec_parse_attrs(s, vend + 1) {
                            None => None,
                            Some((rest, p)) => Some((seq![attr] + rest, p)),
                        }
                    },
                }
            }
        }
    }
}

/// One node parsed from `pos`: an element if a `<` is next, otherwise
/// character data up to the next `<`.
pub open spec fn spec_parse_node(s: Seq<char>, pos: int) -> Option<(SpecNode, int)>
    decreases s.len() - pos, 1int,
{
    if pos < 0 || pos >= s.len() {
        None
    } else if s[pos] == '<' {
        let nstart = pos + 1;
        let nend = spec_scan(s, nstart, |c: char| name_stop_char(c));
        if !(nstart < nend && nend < s.len()) {
            None
        } else {
            let name = s.subrange(nstart, nend);
            match spec_parse_attrs(s, nend) {
                None => None,
                Some((attrs, p)) => {
                    if !(pos < p) {
                        None
                    } else if p + 1 < s.len() && s[p] == '/' && s[p + 1] == '>' {
                        Some((SpecNode::Elem { name, attrs, children: Seq::empty() }, p + 2))
                    } else if p < s.len() && s[p] == '>' {
                        match spec_parse_children(s, p + 1) {
                            None => None,
                            Some((children, q)) => {
                                let close = q + 2 + name.len();
                                if q + 1 < s.len() && s[q] == '<' && s[q + 1]
                                    == '/' && close < s.len() && s.subrange(q + 2, close as int)
                                    == name && s[close as int] == '>' {
                                    Some((SpecNode::Elem { name, attrs, children }, close + 1))
                                } else {
                                    None
                                }
                            },
                        }
                    } else {
                        None
                    }
                },
            }
        }
    } else {
        let tend = spec_scan(s, pos, |c: char| c == '<');
        if pos < tend && tend <= s.len() {
            match spec_unescape(s.subrange(pos, tend)) {
                None => None,
                Some(text) => Some((SpecNode::Text { text }, tend)),
            }
        } else {
            None
        }
    }
}

/// A child list parsed from `pos`: nodes until a closing tag begins.
pub open spec fn spec_parse_children(s: Seq<char>, pos: int) -> Option<(Seq<SpecNode>, int)>
    decreases s.len() - pos, 2int,
{
    if pos < 0 || pos > s.len() {
        None
    } else if pos + 1 < s.len() && s[pos] == '<' && s[pos + 1] == '/' {
        Some((Seq::empty(), pos))
    } else {
        match spec_parse_node(s, pos) {
            None => None,
            Some((n, p)) => {
                if !(pos < p && p <= s.len()) {
                    None
                } else {
                    match spec_parse_children(s, p) {
                        None => None,
                        Some((rest, q)) => Some((seq![n] + rest, q)),
                    }
                }
            },
        }
    }
}

// ------------------------------------------------------------------
// The parser inverts the renderer
// ------------------------------------------------------------------

/// A subrange equality gives character-by-character equalities.
proof fn lemma_indexes(s: Seq<char>, pos: int, r: Seq<char>)
    requires
        0 <= pos,
        pos + r.len() <= s.len(),
        s.subrange(pos, pos + r.len()) == r,
    ensures
        forall|i: int| 0 <= i < r.len() ==> s[pos + i] == r[i],
{
    assert forall|i: int| 0 <= i < r.len() implies s[pos + i] == r[i] by {
        assert(s.subrange(pos, pos + r.len())[i] == s[pos + i]);
    }
}

/// A subrange equality restricts to any sub-piece.
proof fn lemma_sub_subrange(s: Seq<char>, pos: int, r: Seq<char>, off: int, l: int)
    requires
        0 <= pos,
        pos + r.len() <= s.len(),
        s.subrange(pos, pos + r.len()) == r,
        0 <= off,
        0 <= l,
        off + l <= r.len(),
    ensures
        s.subrange(pos + off, pos + off + l) == r.subrange(off, off + l),
{
    lemma_indexes(s, pos, r);
    assert(s.subrange(pos + off, pos + off + l) =~= r.subrange(off, off + l));
}

/// Where each piece of one attribute's wire form sits.
proof fn lemma_render_attr_chars(a: SpecAttr)
    ensures
        spec_render_attr(a).len() == a.name.len() + spec_escape(a.value).len() + 4,
        spec_render_attr(a)[0] == ' ',
        forall|i: int| 0 <= i < a.name.len() ==> spec_render_attr(a)[1 + i] == a.name[i],
        spec_render_attr(a)[1 + a.name.len() as int] == '=',
        spec_render_attr(a)[2 + a.name.len() as int] == '"',
        forall|i: int|
            0 <= i < spec_escape(a.value).len() ==> spec_render_attr(a)[3 + a.name.len() + i]
                == spec_escape(a.value)[i],
        spec_render_attr(a)[3 + a.name.len() + spec_escape(a.value).len() as int] == '"',
{
    let r = spec_render_attr(a);
    let ev = spec_escape(a.value);
    assert forall|i: int| 0 <= i < a.name.len() implies r[1 + i] == a.name[i] by {
        assert((seq![' '] + a.name)[1 + i] == a.name[i]);
    }
    assert forall|i: int| 0 <= i < ev.len() implies r[3 + a.name.len() + i] == ev[i] by {
        assert((seq![' '] + a.name + seq!['=', '"'] + ev)[3 + a.name.len() + i] == ev[i]);
    }
}

/// Parsing an attribute list back from its rendering recovers it, when
/// the next character is the `/` or `>` that ends the tag.
proof fn lemma_parse_render_attrs(s: Seq<char>, pos: int, attrs: Seq<SpecAttr>)
    requires
        0 <= pos,
        pos + spec_render_attrs(attrs).len() < s.len(),
        s.subrange(pos, pos + spec_render_attrs(attrs).len()) == spec_render_attrs(attrs),
        forall|i: int| 0 <= i < attrs.len() ==> wf_attr(#[trigger] attrs[i]),
        s[pos + spec_render_attrs(attrs).len()] == '/' || s[pos + spec_render_attrs(attrs).len()]
            == '>',
    ensures
        spec_parse_attrs(s, pos) == Some((attrs, pos + spec_render_attrs(attrs).len())),
    decreases attrs.len(),
{
    let whole = spec_render_attrs(attrs);
    if attrs.len() == 0 {
        assert(whole =~= Seq::<char>::empty());
        assert(s[pos] == '/' || s[pos] == '>');
        assert(attrs =~= Seq::<SpecAttr>::empty());
        assert(spec_parse_attrs(s, pos) == Some((attrs, pos)));
    } else {
        let a = attrs[0];
        let rest = attrs.drop_first();
        let ra = spec_render_attr(a);
        let rr = spec_render_attrs(rest);
        assert(whole == ra + rr);
        lemma_render_attr_chars(a);
        lemma_escape_chars(a.value);
        lemma_unescape_escape(a.value);
        lemma_indexes(s, pos, whole);
        let nl = a.name.len() as int;
        let ev = spec_escape(a.value);
        let vl = ev.len() as int;
        // the leading space
        assert(s[pos] == whole[0]);
        assert(whole[0] == (ra + rr)[0] && (ra + rr)[0] == ra[0]);
        // the name characters and the terminator after them
        let nstart = pos + 1;
        assert forall|i: int| nstart <= i < nstart + nl implies !name_stop_char(s[i]) by {
            assert(s[i] == whole[i - pos]);
            assert(whole[i - pos] == ra[i - pos]);
            assert(ra[1 + (i - nstart)] == a.name[i - nstart]);
            assert(wf_attr(attrs[0]));
        }
        assert(s[nstart + nl] == whole[1 + nl]);
        assert((ra + rr)[1 + nl] == ra[1 + nl]);
        assert(name_stop_char('='));
        lemma_scan_exact(s, nstart, nl, |c: char| name_stop_char(c));
        let nend = nstart + nl;
        assert(s[nend] == '=');
        assert(s[nend + 1] == whole[2 + nl]);
        assert((ra + rr)[2 + nl] == ra[2 + nl]);
        // the quoted value
        let vstart = nend + 2;
        assert forall|i: int| vstart <= i < vstart + vl implies !((|c: char| c == '"')(s[i])) by {
            assert(s[i] == whole[i - pos]);
            assert(whole[i - pos] == ra[i - pos]);
            assert(ra[3 + nl + (i - vstart)] == ev[i - vstart]);
        }
        assert(s[vstart + vl] == whole[3 + nl + vl]);
        assert((ra + rr)[3 + nl + vl] == ra[3 + nl + vl]);
        lemma_scan_exact(s, vstart, vl, |c: char| c == '"');
        let vend = vstart + vl;
        assert(s[vend] == '"');
        // the parsed attribute equals the rendered one
        lemma_sub_subrange(s, pos, whole, 1, nl);
        assert(whole.subrange(1, 1 + nl) =~= a.name);
        lemma_sub_subrange(s, pos, whole, 3 + nl, vl);
        assert(whole.subrange(3 + nl, 3 + nl + vl) =~= ev);
        assert(s.subrange(nstart, nend) == a.name);
        assert(s.subrange(vstart, vend) == ev);
        assert(spec_unescape(s.subrange(vstart, vend)) == Some(a.value));
        // the remaining attributes parse by induction
        lemma_sub_subrange(s, pos, whole, ra.len() as int, rr.len() as int);
        assert(whole.subrange(ra.len() as int, ra.len() + rr.len() as int) =~= rr);
        assert forall|i: int| 0 <= i < rest.len() implies wf_attr(#[trigger] rest[i]) by {
            assert(rest[i] == attrs[i + 1]);
        }
        lemma_parse_render_attrs(s, vend + 1, rest);
        let parsed = SpecAttr { name: s.subrange(nstart, nend), value: a.value };
        assert(seq![parsed] + rest =~= attrs);
    }
}

/// Where each piece of an element's opening `<name attrs` sits.
proof fn lemma_elem_head_chars(name: Seq<char>, attrs: Seq<SpecAttr>)
    ensures
        ({
            let head = seq!['<'] + name + spec_render_attrs(attrs);
            let nl = name.len() as int;
            let al = spec_render_attrs(attrs).len() as int;
            &&& head.len() == 1 + nl + al
            &&& head[0] == '<'
            &&& forall|i: int| 0 <= i < nl ==> head[1 + i] == name[i]
            &&& forall|j: int| 0 <= j < al ==> head[1 + nl + j] == spec_render_attrs(attrs)[j]
        }),
{
    let ra = spec_render_attrs(attrs);
    let head = seq!['<'] + name + ra;
    let nl = name.len() as int;
    assert forall|i: int| 0 <= i < nl implies head[1 + i] == name[i] by {
        assert((seq!['<'] + name)[1 + i] == name[i]);
    }
    assert forall|j: int| 0 <= j < ra.len() implies head[1 + nl + j] == ra[j] by {
        assert((seq!['<'] + name + ra)[1 + nl + j] == ra[j]);
    }
}

/// A nonempty attribute list's rendering starts with a space.
proof fn lemma_render_attrs_first_char(attrs: Seq<SpecAttr>)
    requires
        attrs.len() > 0,
    ensures
        spec_render_attrs(attrs).len() >= 4,
        spec_render_attrs(attrs)[0] == ' ',
{
    lemma_render_attr_chars(attrs[0]);
    assert((spec_render_attr(attrs[0]) + spec_render_attrs(attrs.drop_first()))[0]
        == spec_render_attr(attrs[0])[0]);
}

/// A well-formed node renders to at least one character, and an
/// element's rendering starts with `<` while text's does not.
proof fn lemma_render_node_first_char(n: SpecNode)
    requires
        wf_node(n),
    ensures
        spec_render_node(n).len() > 0,
        n is Elem ==> spec_render_node(n)[0] == '<' && spec_render_node(n).len() >= 3,
        n is Text ==> spec_render_node(n)[0] != '<',
        n is Elem && spec_render_node(n).len() > 1 ==> spec_render_node(n)[1]
            == n->Elem_name[0],
{
    match n {
        SpecNode::Text { text } => {
            lemma_escape_chars(text);
        },
        SpecNode::Elem { name, attrs, children } => {
            lemma_elem_head_chars(name, attrs);
            let head = seq!['<'] + name + spec_render_attrs(attrs);
            if children.len() == 0 {
                assert(spec_render_node(n) == head + seq!['/', '>']);
                assert((head + seq!['/', '>'])[0] == head[0]);
                assert((head + seq!['/', '>'])[1] == head[1]);
            } else {
                let mid = head + seq!['>'] + spec_render_children(children) + seq!['<', '/']
                    + name;
                assert(spec_render_node(n) == mid + seq!['>']);
                assert((mid + seq!['>'])[0] == head[0]);
                assert((mid + seq!['>'])[1] == head[1]);
            }
        },
    }
}

/// Parsing a node back from its rendering recovers it.  Text needs the
/// character after it (if any) to be a `<`, so that the text scan stops.
#[verifier::rlimit(100)]
#[verifier::spinoff_prover]
pub proof fn lemma_parse_render_node(s: Seq<char>, pos: int, n: SpecNode)
    requires
        wf_node(n),
        0 <= pos,
        pos + spec_render_node(n).len() <= s.len(),
        s.subrange(pos, pos + spec_render_node(n).len()) == spec_render_node(n),
        n is Text ==> pos + spec_render_node(n).len() == s.len() || s[pos + spec_render_node(
            n,
        ).len()] == '<',
    ensures
        spec_parse_node(s, pos) == Some((n, pos + spec_render_node(n).len())),
    decreases n,
{
    let rn = spec_render_node(n);
    lemma_indexes(s, pos, rn);
    match n {
        SpecNode::Text { text } => {
            let e = spec_escape(text);
            lemma_escape_chars(text);
            lemma_unescape_escape(text);
            assert(s[pos] == e[0]);
            assert(s[pos] != '<');
            assert forall|i: int| pos <= i < pos + e.len() implies !((|c: char| c == '<')(
                s[i],
            )) by {
                assert(s[i] == e[i - pos]);
            }
            lemma_scan_exact(s, pos, e.len() as int, |c: char| c == '<');
            assert(s.subrange(pos, pos + e.len()) =~= e);
            assert(spec_unescape(s.subrange(pos, pos + e.len())) == Some(text));
        },
        SpecNode::Elem { name, attrs, children } => {
            let nl = name.len() as int;
            let ra = spec_render_attrs(attrs);
            let al = ra.len() as int;
            let head = seq!['<'] + name + ra;
            lemma_elem_head_chars(name, attrs);
            let tail_start = pos + 1 + nl + al;
            // the rendered form in both shapes: head, then the rest
            if children.len() == 0 {
                assert(rn == head + seq!['/', '>']);
                assert forall|i: int| 0 <= i < head.len() implies rn[i] == head[i] by {
                    assert((head + seq!['/', '>'])[i] == head[i]);
                }
                assert(rn[head.len() as int] == '/') by {
                    assert((head + seq!['/', '>'])[head.len() as int] == '/');
                }
                assert(rn[head.len() + 1 as int] == '>') by {
                    assert((head + seq!['/', '>'])[head.len() + 1 as int] == '>');
                }
            } else {
                let rc = spec_render_children(children);
                let mid0 = head + seq!['>'];
                let mid1 = mid0 + rc;
                let mid2 = mid1 + seq!['<', '/'];
                let mid3 = mid2 + name;
                assert(rn == mid3 + seq!['>']);
                assert forall|i: int| 0 <= i < head.len() implies rn[i] == head[i] by {
                    assert((mid3 + seq!['>'])[i] == mid3[i]);
                    assert(mid3[i] == mid2[i]);
                    assert(mid2[i] == mid1[i]);
                    assert(mid1[i] == mid0[i]);
                    assert(mid0[i] == head[i]);
                }
                assert(rn[head.len() as int] == '>') by {
                    assert((mid3 + seq!['>'])[head.len() as int] == mid0[head.len() as int]);
                }
            }
            // the opening '<' and the name scan
            assert(s[pos] == rn[0] && rn[0] == head[0]);
            assert forall|i: int| pos + 1 <= i < pos + 1 + nl implies !name_stop_char(s[i]) by {
                assert(s[i] == rn[i - pos]);
                assert(rn[i - pos] == head[i - pos]);
                assert(head[1 + (i - pos - 1)] == name[i - pos - 1]);
            }
            assert(name_stop_char(s[pos + 1 + nl])) by {
                if al > 0 {
                    lemma_render_attrs_first_char(attrs);
                    assert(head[1 + nl + 0] == ra[0]);
                    assert(s[pos + 1 + nl] == rn[1 + nl]);
                } else {
                    assert(s[pos + 1 + nl] == rn[1 + nl]);
                    assert(head.len() == 1 + nl);
                }
            }
            lemma_scan_exact(s, pos + 1, nl, |c: char| name_stop_char(c));
            let nend = pos + 1 + nl;
            lemma_sub_subrange(s, pos, rn, 1, nl);
            assert(rn.subrange(1, 1 + nl) =~= name) by {
                assert forall|i: int| 0 <= i < nl implies rn.subrange(1, 1 + nl)[i] == name[i] by {
                    assert(rn[1 + i] == head[1 + i]);
                }
            }
            assert(s.subrange(pos + 1, nend) == name);
            // the attributes
            lemma_sub_subrange(s, pos, rn, 1 + nl, al);
            assert(rn.subrange(1 + nl, 1 + nl + al) =~= ra) by {
                assert forall|j: int| 0 <= j < al implies rn.subrange(1 + nl, 1 + nl + al)[j]
                    == ra[j] by {
                    assert(rn[1 + nl + j] == head[1 + nl + j]);
                }
            }
            assert(s[tail_start] == rn[1 + nl + al]);
            assert(s[tail_start] == '/' || s[tail_start] == '>');
            assert forall|i: int| 0 <= i < attrs.len() implies wf_attr(#[trigger] attrs[i]) by {}
            lemma_parse_render_attrs(s, nend, attrs);
            // the tail
            if children.len() == 0 {
                assert(s[tail_start] == '/');
                assert(s[tail_start + 1] == rn[1 + nl + al + 1]);
                assert(Seq::<SpecNode>::empty() =~= children);
                assert(spec_parse_node(s, pos) == Some((n, pos + rn.len())));
            } else {
                let rc = spec_render_children(children);
                let rcl = rc.len() as int;
                let mid0 = head + seq!['>'];
                let mid1 = mid0 + rc;
                let mid2 = mid1 + seq!['<', '/'];
                let mid3 = mid2 + name;
                assert(rn == mid3 + seq!['>']);
                assert forall|j: int| 0 <= j < rcl implies rn[head.len() + 1 + j] == rc[j] by {
                    assert((mid3 + seq!['>'])[head.len() + 1 + j] == mid3[head.len() + 1 + j]);
                    assert(mid3[head.len() + 1 + j] == mid2[head.len() + 1 + j]);
                    assert(mid2[head.len() + 1 + j] == mid1[head.len() + 1 + j]);
                    assert(mid1[head.len() + 1 + j] == rc[j]);
                }
                assert(rn[mid1.len() as int] == '<') by {
                    assert((mid3 + seq!['>'])[mid1.len() as int] == mid2[mid1.len() as int]);
                }
                assert(rn[mid1.len() + 1 as int] == '/') by {
                    assert((mid3 + seq!['>'])[mid1.len() + 1 as int] == mid2[mid1.len()
                        + 1 as int]);
                }
                assert forall|i: int| 0 <= i < nl implies rn[mid2.len() + i] == name[i] by {
                    assert((mid3 + seq!['>'])[mid2.len() + i] == mid3[mid2.len() + i]);
                    assert(mid3[mid2.len() + i] == name[i]);
                }
                assert(rn[mid3.len() as int] == '>') by {
                    assert((mid3 + seq!['>'])[mid3.len() as int] == '>');
                }
                assert(s[tail_start] == '>');
                // children parse by induction
                let cstart = tail_start + 1;
                lemma_sub_subrange(s, pos, rn, head.len() + 1 as int, rcl);
                assert(rn.subrange(head.len() + 1 as int, head.len() + 1 + rcl) =~= rc);
                assert(s[cstart + rcl] == rn[mid1.len() as int]);
                assert(s[cstart + rcl + 1] == rn[mid1.len() + 1 as int]);
                lemma_parse_render_children(s, cstart, children);
                // the closing tag
                let q = cstart + rcl;
                lemma_sub_subrange(s, pos, rn, mid2.len() as int, nl);
                assert(rn.subrange(mid2.len() as int, mid2.len() + nl) =~= name);
                assert(s.subrange(q + 2, q + 2 + nl) == name);
                assert(s[q + 2 + nl] == rn[mid3.len() as int]);
                assert(spec_parse_node(s, pos) == Some((n, pos + rn.len())));
            }
        },
    }
}

/// Parsing a child list back from its rendering recovers it, provided a
/// closing tag `</` follows (as it always does inside an element).
pub proof fn lemma_parse_render_children(s: Seq<char>, pos: int, children: Seq<SpecNode>)
    requires
        wf_children(children),
        0 <= pos,
        pos + spec_render_children(children).len() + 1 < s.len(),
        s.subrange(pos, pos + spec_render_children(children).len()) == spec_render_children(
            children,
        ),
        s[pos + spec_render_children(children).len()] == '<',
        s[pos + spec_render_children(children).len() + 1] == '/',
    ensures
        spec_parse_children(s, pos) == Some((children, pos + spec_render_children(
            children,
        ).len())),
    decreases children,
{
    let rc = spec_render_children(children);
    lemma_indexes(s, pos, rc);
    if children.len() == 0 {
        assert(rc =~= Seq::<char>::empty());
        assert(children =~= Seq::<SpecNode>::empty());
    } else {
        let c0 = children[0];
        let rest = children.drop_first();
        let r0 = spec_render_node(c0);
        let rr = spec_render_children(rest);
        assert(rc == r0 + rr);
        lemma_render_node_first_char(c0);
        assert forall|i: int| 0 <= i < r0.len() implies rc[i] == r0[i] by {
            assert((r0 + rr)[i] == r0[i]);
        }
        // this is not already a closing tag
        assert(s[pos] == rc[0] && rc[0] == r0[0]);
        if c0 is Elem {
            assert(r0.len() >= 3);
            assert(s[pos + 1] == rc[1] && rc[1] == r0[1]);
            assert(r0[1] == c0->Elem_name[0]);
            assert(wf_node(c0));
            assert(name_char(c0->Elem_name[0]));
            assert(s[pos + 1] != '/');
        } else {
            assert(s[pos] != '<');
        }
        assert(!(pos + 1 < s.len() && s[pos] == '<' && s[pos + 1] == '/'));
        // the first child parses
        lemma_sub_subrange(s, pos, rc, 0, r0.len() as int);
        assert(rc.subrange(0, r0.len() as int) =~= r0);
        if c0 is Text {
            if rest.len() == 0 {
                assert(pos + r0.len() == pos + rc.len()) by {
                    assert(rr =~= Seq::<char>::empty());
                }
                assert(s[pos + r0.len()] == '<');
            } else {
                let c1 = rest[0];
                assert(c1 == children[1]);
                assert(!(c0 is Text && c1 is Text));
                assert(c1 is Elem);
                assert(wf_node(c1)) by {
                    assert(children[1] == c1);
                }
                lemma_render_node_first_char(c1);
                let r1 = spec_render_node(c1);
                assert(rr == r1 + spec_render_children(rest.drop_first()));
                assert(rr[0] == r1[0]) by {
                    assert((r1 + spec_render_children(rest.drop_first()))[0] == r1[0]);
                }
                assert(s[pos + r0.len()] == rc[r0.len() as int]);
                assert(rc[r0.len() as int] == rr[0]) by {
                    assert((r0 + rr)[r0.len() as int] == rr[0]);
                }
                assert(s[pos + r0.len()] == '<');
            }
        }
        lemma_parse_render_node(s, pos, c0);
        // the remaining children parse by induction
        let p = pos + r0.len();
        assert forall|i: int| 0 <= i < rest.len() implies wf_node(#[trigger] rest[i]) by {
            assert(rest[i] == children[i + 1]);
        }
        assert forall|i: int| 0 <= i < rest.len() - 1 implies !((#[trigger] rest[i]) is Text
            && rest[i + 1] is Text) by {
            assert(rest[i] == children[i + 1]);
            assert(rest[i + 1] == children[i + 2]);
        }
        lemma_sub_subrange(s, pos, rc, r0.len() as int, rr.len() as int);
        assert(rc.subrange(r0.len() as int, r0.len() + rr.len() as int) =~= rr);
        lemma_parse_render_children(s, p, rest);
        assert(seq![c0] + rest =~= children);
        assert(spec_parse_children(s, pos) == Some((children, pos + rc.len())));
    }
}

/// Splitting an attribute list splits its rendering.
pub proof fn lemma_render_attrs_concat(a: Seq<SpecAttr>, b: Seq<SpecAttr>)
    ensures
        spec_render_attrs(a + b) == spec_render_attrs(a) + spec_render_attrs(b),
    decreases a.len(),
{
    if a.len() == 0 {
        assert(a + b =~= b);
        assert(spec_render_attrs(a) + spec_render_attrs(b) =~= spec_render_attrs(b));
    } else {
        assert((a + b).drop_first() =~= a.drop_first() + b);
        lemma_render_attrs_concat(a.drop_first(), b);
        assert(spec_render_attr((a + b)[0]) + (spec_render_attrs(a.drop_first())
            + spec_render_attrs(b)) =~= (spec_render_attr(a[0]) + spec_render_attrs(
            a.drop_first(),
        )) + spec_render_attrs(b));
    }
}

} // verus!

verus! {

// ------------------------------------------------------------------
// The executable parser
// ------------------------------------------------------------------

/// The view of a parsed attribute vector.
pub open spec fn attrs_view(v: Vec<XmlAttr>) -> Seq<SpecAttr> {
    v@.map_values(|a: XmlAttr| a@)
}

/// The views of a sequence of nodes.
pub open spec fn nodes_view(s: Seq<XmlNode>) -> Seq<SpecNode> {
    Seq::new(
        s.len(),
        |i: int|
            if 0 <= i < s.len() {
                s[i]@
            } else {
                SpecNode::Text { text: Seq::empty() }
            },
    )
}

/// The view of a parsed child vector.
pub open spec fn children_view(v: Vec<XmlNode>) -> Seq<SpecNode> {
    nodes_view(v@)
}

fn is_name_stop(c: char) -> (b: bool)
    ensures
        b == name_stop_char(c),
{
    c == ' ' || c == '/' || c == '>' || c == '=' || c == '"' || c == '<'
}

/// Scan for the first character ending a name.
#[verifier::loop_isolation(false)]
fn scan_name_end(s: &str, pos: usize) -> (r: usize)
    requires
        pos <= s@.len(),
    ensures
        pos <= r <= s@.len(),
        r == spec_scan(s@, pos as int, |c: char| name_stop_char(c)),
{
    let n = s.unicode_len();
    let mut i = pos;
    while i < n && !is_name_stop(s.get_char(i))
        invariant
            pos <= i <= n,
            forall|j: int| pos <= j < i ==> !name_stop_char(#[trigger] s@[j]),
        decreases n - i,
    {
        i = i + 1;
    }
    proof {
        lemma_scan_exact(s@, pos as int, i - pos, |c: char| name_stop_char(c));
    }
    i
}

/// Scan for the first `"`.
#[verifier::loop_isolation(false)]
fn scan_quote(s: &str, pos: usize) -> (r: usize)
    requires
        pos <= s@.len(),
    ensures
        pos <= r <= s@.len(),
        r == spec_scan(s@, pos as int, |c: char| c == '"'),
{
    let n = s.unicode_len();
    let mut i = pos;
    while i < n && s.get_char(i) != '"'
        invariant
            pos <= i <= n,
            forall|j: int| pos <= j < i ==> (#[trigger] s@[j]) != '"',
        decreases n - i,
    {
        i = i + 1;
    }
    proof {
        lemma_scan_exact(s@, pos as int, i - pos, |c: char| c == '"');
    }
    i
}

/// Scan for the first `<`.
#[verifier::loop_isolation(false)]
fn scan_lt(s: &str, pos: usize) -> (r: usize)
    requires
        pos <= s@.len(),
    ensures
        pos <= r <= s@.len(),
        r == spec_scan(s@, pos as int, |c: char| c == '<'),
{
    let n = s.unicode_len();
    let mut i = pos;
    while i < n && s.get_char(i) != '<'
        invariant
            pos <= i <= n,
            forall|j: int| pos <= j < i ==> (#[trigger] s@[j]) != '<',
        decreases n - i,
    {
        i = i + 1;
    }
    proof {
        lemma_scan_exact(s@, pos as int, i - pos, |c: char| c == '<');
    }
    i
}

/// Whether the characters of `t` occur in `s` starting at `pos`.
#[verifier::loop_isolation(false)]
fn region_matches(s: &str, pos: usize, t: &str) -> (b: bool)
    requires
        pos <= s@.len(),
    ensures
        b == (pos + t@.len() <= s@.len() && s@.subrange(pos as int, pos + t@.len()) == t@),
{
    let n = s.unicode_len();
    let tl = t.unicode_len();
    if tl > n - pos {
        return false;
    }
    let mut i: usize = 0;
    while i < tl
        invariant
            0 <= i <= tl,
            forall|j: int| 0 <= j < i ==> s@[pos + j] == t@[j],
        decreases tl - i,
    {
        if s.get_char(pos + i) != t.get_char(i) {
            proof {
                assert(s@.subrange(pos as int, pos + t@.len())[i as int] != t@[i as int]);
            }
            return false;
        }
        i = i + 1;
    }
    proof {
        assert(s@.subrange(pos as int, pos + t@.len()) =~= t@);
    }
    true
}

/// Parse an attribute list, mirroring [`spec_parse_attrs`].
pub fn parse_attrs_at(s: &str, pos: usize) -> (r: Option<(Vec<XmlAttr>, usize)>)
    requires
        pos <= s@.len(),
    ensures
        match r {
            None => spec_parse_attrs(s@, pos as int) is None,
            Some((attrs, p)) => p <= s@.len() && spec_parse_attrs(s@, pos as int) == Some(
                (attrs_view(attrs), p as int),
            ),
        },
    decreases s@.len() - pos, 0int,
{
    let n = s.unicode_len();
    if pos >= n {
        return None;
    }
    if s.get_char(pos) != ' ' {
        let attrs: Vec<XmlAttr> = Vec::new();
        proof {
            assert(attrs_view(attrs) =~= Seq::<SpecAttr>::empty());
        }
        return Some((attrs, pos));
    }
    let nstart = pos + 1;
    let nend = scan_name_end(s, nstart);
    if !(nstart < nend && nend < n && nend + 1 < n) {
        return None;
    }
    if !(s.get_char(nend) == '=' && s.get_char(nend + 1) == '"') {
        return None;
    }
    let vstart = nend + 2;
    let vend = scan_quote(s, vstart);
    if !(vend < n) {
        return None;
    }
    let name = String::from_str(s.substring_char(nstart, nend));
    let value = match unescape_text(s.substring_char(vstart, vend)) {
        Some(v) => v,
        None => {
            return None;
        },
    };
    match parse_attrs_at(s, vend + 1) {
        None => None,
        Some((rest, p)) => {
            let ghost value_view = value@;
            let mut attrs = rest;
            attrs.insert(0, XmlAttr { name, value });
            proof {
                let a = SpecAttr {
                    name: s@.subrange(nstart as int, nend as int),
                    value: value_view,
                };
                assert(attrs_view(attrs) =~= seq![a] + spec_parse_attrs(
                    s@,
                    vend + 1 as int,
                )->Some_0.0);
            }
            Some((attrs, p))
        },
    }
}

/// Parse one node, mirroring [`spec_parse_node`].
pub fn parse_node_at(s: &str, pos: usize) -> (r: Option<(XmlNode, usize)>)
    requires
        pos <= s@.len(),
    ensures
        match r {
            None => spec_parse_node(s@, pos as int) is None,
            Some((node, p)) => p <= s@.len() && spec_parse_node(s@, pos as int) == Some(
                (node@, p as int),
            ),
        },
    decreases s@.len() - pos, 1int,
{
    let n = s.unicode_len();
    if pos >= n {
        return None;
    }
    if s.get_char(pos) != '<' {
        let tend = scan_lt(s, pos);
        proof {
            lemma_scan_bounds(s@, pos + 1 as int, |c: char| c == '<');
        }
        let text = match unescape_text(s.substring_char(pos, tend)) {
            Some(t) => t,
            None => {
                return None;
            },
        };
        return Some((XmlNode::Text { text }, tend));
    }
    let nstart = pos + 1;
    let nend = scan_name_end(s, nstart);
    if !(nstart < nend && nend < n) {
        return None;
    }
    let name = String::from_str(s.substring_char(nstart, nend));
    match parse_attrs_at(s, nend) {
        None => None,
        Some((attrs, p)) => {
            if !(pos < p) {
                return None;
            }
            if p < n && p + 1 < n && s.get_char(p) == '/' && s.get_char(p + 1) == '>' {
                let children: Vec<XmlNode> = Vec::new();
                let node = XmlNode::Elem { name, attrs, children };
                proof {
                    assert(node@->Elem_children =~= Seq::<SpecNode>::empty());
                    assert(node@->Elem_attrs =~= attrs_view(attrs));
                }
                return Some((node, p + 2));
            }
            if !(p < n && s.get_char(p) == '>') {
                return None;
            }
            match parse_children_at(s, p + 1) {
                None => None,
                Some((children, q)) => {
                    if !(q < n && q + 1 < n && s.get_char(q) == '<' && s.get_char(q + 1) == '/') {
                        return None;
                    }
                    let nl = nend - nstart;
                    if !(nl < n - (q + 2)) {
                        return None;
                    }
                    if !region_matches(s, q + 2, name.as_str()) {
                        return None;
                    }
                    if !(s.get_char(q + 2 + nl) == '>') {
                        return None;
                    }
                    let node = XmlNode::Elem { name, attrs, children };
                    proof {
                        assert(node@->Elem_attrs =~= attrs_view(attrs));
                        assert(node@->Elem_children =~= children_view(children));
                    }
                    Some((node, q + 2 + nl + 1))
                },
            }
        },
    }
}

/// Parse a child list, mirroring [`spec_parse_children`].
pub fn parse_children_at(s: &str, pos: usize) -> (r: Option<(Vec<XmlNode>, usize)>)
    requires
        pos <= s@.len(),
    ensures
        match r {
            None => spec_parse_children(s@, pos as int) is None,
            Some((children, p)) => p <= s@.len() && spec_parse_children(s@, pos as int) == Some(
                (children_view(children), p as int),
            ),
        },
    decreases s@.len() - pos, 2int,
{
    let n = s.unicode_len();
    if pos < n && pos + 1 < n && s.get_char(pos) == '<' && s.get_char(pos + 1) == '/' {
        let children: Vec<XmlNode> = Vec::new();
        proof {
            assert(children_view(children) =~= Seq::<SpecNode>::empty());
        }
        return Some((children, pos));
    }
    match parse_node_at(s, pos) {
        None => None,
        Some((node, p)) => {
            if !(pos < p) {
                return None;
            }
            match parse_children_at(s, p) {
                None => None,
                Some((rest, q)) => {
                    let ghost node_view = node@;
                    let mut children = rest;
                    children.insert(0, node);
                    proof {
                        assert(children_view(children) =~= seq![node_view]
                            + spec_parse_children(s@, p as int)->Some_0.0);
                    }
                    Some((children, q))
                },
            }
        },
    }
}

} // verus!

verus! {

// ------------------------------------------------------------------
// The document codec
// ------------------------------------------------------------------

/// The fixed declaration line that starts every document this client
/// sends, and that it expects on every document it receives.
pub const EPP_XML_HEADER: &'static str =
    "<?xml version=\"1.0\" encoding=\"UTF-8\" standalone=\"no\"?>";

/// The wire form of a whole document: the declaration, a CRLF, then
/// the root element.
pub open spec fn spec_document(n: SpecNode) -> Seq<char> {
    EPP_XML_HEADER@ + seq!['\r', '\n'] + spec_render_node(n)
}

/// A whole document parsed back: the declaration, a CRLF, then exactly
/// one root node filling the rest of the input.
pub open spec fn spec_parse_document(s: Seq<char>) -> Option<SpecNode> {
    let hl = EPP_XML_HEADER@.len() as int;
    if s.len() > hl + 2 && s.subrange(0, hl) == EPP_XML_HEADER@ && s[hl] == '\r' && s[hl + 1]
        == '\n' {
        match spec_parse_node(s, hl + 2) {
            None => None,
            Some((n, p)) => if p == s.len() {
                Some(n)
            } else {
                None
            },
        }
    } else {
        None
    }
}

/// Render a whole document.
pub fn render_document(root: &XmlNode) -> (out: String)
    ensures
        out@ == spec_document(root@),
{
    let mut out = String::from_str(EPP_XML_HEADER);
    proof {
        reveal_strlit("\r\n");
    }
    out.append("\r\n");
    root.render_into(&mut out);
    proof {
        assert(out@ =~= spec_document(root@));
    }
    out
}

/// Parse a whole document.
pub fn parse_document(s: &str) -> (r: Option<XmlNode>)
    ensures
        match r {
            None => spec_parse_document(s@) is None,
            Some(node) => spec_parse_document(s@) == Some(node@),
        },
{
    let n = s.unicode_len();
    let hl = EPP_XML_HEADER.unicode_len();
    if !(n > 2 && hl < n - 2) {
        return None;
    }
    if !region_matches(s, 0, EPP_XML_HEADER) {
        return None;
    }
    proof {
        reveal_strlit("\r\n");
    }
    if !(s.get_char(hl) == '\r' && s.get_char(hl + 1) == '\n') {
        return None;
    }
    match parse_node_at(s, hl + 2) {
        None => None,
        Some((node, p)) => {
            if p == n {
                Some(node)
            } else {
                None
            }
        },
    }
}

/// The codec round trip: a rendered well-formed document parses back to
/// the tree it was rendered from.
pub proof fn lemma_document_round_trip(n: SpecNode)
    requires
        wf_node(n),
        n is Elem,
    ensures
        spec_parse_document(spec_document(n)) == Some(n),
{
    let h = EPP_XML_HEADER@;
    let hl = h.len() as int;
    let rn = spec_render_node(n);
    let s = spec_document(n);
    lemma_render_node_first_char(n);
    assert(s == (h + seq!['\r', '\n']) + rn);
    assert(s.subrange(0, hl) =~= h) by {
        assert forall|i: int| 0 <= i < hl implies s[i] == h[i] by {
            assert(((h + seq!['\r', '\n']) + rn)[i] == (h + seq!['\r', '\n'])[i]);
        }
    }
    assert(s[hl] == '\r') by {
        assert(((h + seq!['\r', '\n']) + rn)[hl] == (h + seq!['\r', '\n'])[hl]);
    }
    assert(s[hl + 1] == '\n') by {
        assert(((h + seq!['\r', '\n']) + rn)[hl + 1] == (h + seq!['\r', '\n'])[hl + 1]);
    }
    assert(s.subrange(hl + 2, hl + 2 + rn.len()) =~= rn) by {
        assert forall|i: int| 0 <= i < rn.len() implies s[hl + 2 + i] == rn[i] by {
            assert(((h + seq!['\r', '\n']) + rn)[hl + 2 + i] == rn[i]);
        }
    }
    lemma_parse_render_node(s, hl + 2, n);
}

} // verus!

verus! {

// ------------------------------------------------------------------
// Reading a parsed tree
// ------------------------------------------------------------------

/// Whether a node is an element with the given name.
pub open spec fn spec_elem_named(n: SpecNode, name: Seq<char>) -> bool {
    n is Elem && n->Elem_name == name
}

/// The first child element with the given name.
pub open spec fn spec_child_of(children: Seq<SpecNode>, name: Seq<char>) -> Option<SpecNode>
    decreases children.len(),
{
    if children.len() == 0 {
        None
    } else if spec_elem_named(children[0], name) {
        Some(children[0])
    } else {
        spec_child_of(children.drop_first(), name)
    }
}

/// The first child element of `n` with the given name.
pub open spec fn spec_node_child(n: SpecNode, name: Seq<char>) -> Option<SpecNode> {
    if n is Elem {
        spec_child_of(n->Elem_children, name)
    } else {
        None
    }
}

/// The value of the first attribute with the given name.
pub open spec fn spec_attr_of(attrs: Seq<SpecAttr>, name: Seq<char>) -> Option<Seq<char>>
    decreases attrs.len(),
{
    if attrs.len() == 0 {
        None
    } else if attrs[0].name == name {
        Some(attrs[0].value)
    } else {
        spec_attr_of(attrs.drop_first(), name)
    }
}

/// The value of the named attribute of `n`.
pub open spec fn spec_node_attr(n: SpecNode, name: Seq<char>) -> Option<Seq<char>> {
    if n is Elem {
        spec_attr_of(n->Elem_attrs, name)
    } else {
        None
    }
}

/// The character data of an element: empty when childless, the text of
/// a single text child, and nothing otherwise.
pub open spec fn spec_text_of(n: SpecNode) -> Option<Seq<char>> {
    if n is Elem {
        let cs = n->Elem_children;
        if cs.len() == 0 {
            Some(Seq::empty())
        } else if cs.len() == 1 && cs[0] is Text {
            Some(cs[0]->Text_text)
        } else {
            None
        }
    } else {
        None
    }
}

/// Every child element with the given name, in order.
pub open spec fn spec_children_named(children: Seq<SpecNode>, name: Seq<char>) -> Seq<SpecNode>
    decreases children.len(),
{
    if children.len() == 0 {
        Seq::empty()
    } else {
        spec_children_named(children.drop_last(), name) + (if spec_elem_named(
            children.last(),
            name,
        ) {
            seq![children.last()]
        } else {
            Seq::empty()
        })
    }
}

proof fn lemma_spec_child_first(children: Seq<SpecNode>, name: Seq<char>, i: int)
    requires
        0 <= i <= children.len(),
        forall|j: int| 0 <= j < i ==> !spec_elem_named(#[trigger] children[j], name),
        i < children.len() ==> spec_elem_named(children[i], name),
    ensures
        spec_child_of(children, name) == if i < children.len() {
            Some(children[i])
        } else {
            None::<SpecNode>
        },
    decreases i + 1, children.len(),
{
    if children.len() == 0 {
    } else if i == 0 {
        if children.len() > 0 && !spec_elem_named(children[0], name) {
            lemma_spec_child_none(children.drop_first(), name);
        }
    } else {
        lemma_spec_child_first(children.drop_first(), name, i - 1);
    }
}

proof fn lemma_spec_child_none(children: Seq<SpecNode>, name: Seq<char>)
    requires
        forall|j: int| 0 <= j < children.len() ==> !spec_elem_named(#[trigger] children[j], name),
    ensures
        spec_child_of(children, name) is None,
    decreases children.len(),
{
    if children.len() > 0 {
        lemma_spec_child_none(children.drop_first(), name);
    }
}

proof fn lemma_spec_attr_first(attrs: Seq<SpecAttr>, name: Seq<char>, i: int)
    requires
        0 <= i <= attrs.len(),
        forall|j: int| 0 <= j < i ==> (#[trigger] attrs[j]).name != name,
        i < attrs.len() ==> attrs[i].name == name,
    ensures
        spec_attr_of(attrs, name) == if i < attrs.len() {
            Some(attrs[i].value)
        } else {
            None::<Seq<char>>
        },
    decreases attrs.len(),
{
    if attrs.len() == 0 {
    } else if i == 0 {
    } else {
        lemma_spec_attr_first(attrs.drop_first(), name, i - 1);
    }
}

/// Whether two strings hold the same characters.
pub fn str_eq(a: &str, b: &str) -> (r: bool)
    ensures
        r == (a@ == b@),
{
    let al = a.unicode_len();
    let bl = b.unicode_len();
    if al != bl {
        proof {
            assert(a@ != b@);
        }
        return false;
    }
    let r = region_matches(a, 0, b);
    proof {
        if r {
            assert(a@.subrange(0, b@.len() as int) =~= a@);
        } else {
            assert(a@.subrange(0, a@.len() as int) =~= a@);
        }
    }
    r
}

impl XmlNode {
    /// The first child element with the given name.
    #[verifier::loop_isolation(false)]
    pub fn child<'a>(&'a self, name: &str) -> (r: Option<&'a XmlNode>)
        ensures
            match r {
                Some(c) => spec_node_child(self@, name@) == Some(c@),
                None => spec_node_child(self@, name@) is None,
            },
    {
        match self {
            XmlNode::Text { .. } => None,
            XmlNode::Elem { children, .. } => {
                let ghost cs = self@->Elem_children;
                let mut i: usize = 0;
                while i < children.len()
                    invariant
                        0 <= i <= children.len(),
                        forall|j: int| 0 <= j < i ==> !spec_elem_named(#[trigger] cs[j], name@),
                    decreases children.len() - i,
                {
                    let matches_name = match &children[i] {
                        XmlNode::Elem { name: n, .. } => str_eq(n.as_str(), name),
                        XmlNode::Text { .. } => false,
                    };
                    proof {
                        assert(cs[i as int] == children[i as int]@);
                        assert(matches_name == spec_elem_named(cs[i as int], name@));
                    }
                    if matches_name {
                        proof {
                            lemma_spec_child_first(cs, name@, i as int);
                        }
                        return Some(&children[i]);
                    }
                    i = i + 1;
                }
                proof {
                    lemma_spec_child_first(cs, name@, children.len() as int);
                }
                None
            },
        }
    }

    /// The value of the named attribute.
    #[verifier::loop_isolation(false)]
    pub fn attr_value(&self, name: &str) -> (r: Option<String>)
        ensures
            match r {
                Some(v) => spec_node_attr(self@, name@) == Some(v@),
                None => spec_node_attr(self@, name@) is None,
            },
    {
        match self {
            XmlNode::Text { .. } => None,
            XmlNode::Elem { attrs, .. } => {
                let ghost avs = self@->Elem_attrs;
                let mut i: usize = 0;
                while i < attrs.len()
                    invariant
                        0 <= i <= attrs.len(),
                        avs == attrs@.map_values(|a: XmlAttr| a@),
                        forall|j: int| 0 <= j < i ==> (#[trigger] avs[j]).name != name@,
                    decreases attrs.len() - i,
                {
                    if str_eq(attrs[i].name.as_str(), name) {
                        proof {
                            lemma_spec_attr_first(avs, name@, i as int);
                        }
                        return Some(String::from_str(attrs[i].value.as_str()));
                    }
                    i = i + 1;
                }
                proof {
                    lemma_spec_attr_first(avs, name@, attrs.len() as int);
                }
                None
            },
        }
    }

    /// The character data of this element.
    pub fn text_content(&self) -> (r: Option<String>)
        ensures
            match r {
                Some(v) => spec_text_of(self@) == Some(v@),
                None => spec_text_of(self@) is None,
            },
    {
        match self {
            XmlNode::Text { .. } => None,
            XmlNode::Elem { children, .. } => {
                proof {
                    assert(self@->Elem_children.len() == children.len());
                }
                if children.len() == 0 {
                    proof {
                        reveal_strlit("");
                    }
                    Some(String::from_str(""))
                } else if children.len() == 1 {
                    proof {
                        assert(self@->Elem_children[0] == children[0 as int]@);
                    }
                    match &children[0] {
                        XmlNode::Text { text } => Some(String::from_str(text.as_str())),
                        XmlNode::Elem { .. } => None,
                    }
                } else {
                    None
                }
            },
        }
    }

    /// Every child element with the given name, in order.
    #[verifier::loop_isolation(false)]
    pub fn children_named<'a>(&'a self, name: &str) -> (r: Vec<&'a XmlNode>)
        ensures
            self@ is Elem ==> ({
                let found = spec_children_named(self@->Elem_children, name@);
                &&& r@.len() == found.len()
                &&& forall|i: int| 0 <= i < r@.len() ==> (#[trigger] r@[i])@ == found[i]
            }),
            self@ is Text ==> r@.len() == 0,
    {
        let mut out: Vec<&'a XmlNode> = Vec::new();
        match self {
            XmlNode::Text { .. } => out,
            XmlNode::Elem { children, .. } => {
                let ghost cs = self@->Elem_children;
                let mut i: usize = 0;
                while i < children.len()
                    invariant
                        0 <= i <= children.len(),
                        out@.len() == spec_children_named(cs.take(i as int), name@).len(),
                        forall|k: int|
                            0 <= k < out@.len() ==> (#[trigger] out@[k])@ == spec_children_named(
                                cs.take(i as int),
                                name@,
                            )[k],
                    decreases children.len() - i,
                {
                    proof {
                        assert(cs.take(i + 1 as int).drop_last() =~= cs.take(i as int));
                        assert(cs.take(i + 1 as int).last() == cs[i as int]);
                    }
                    let matches_name = match &children[i] {
                        XmlNode::Elem { name: n, .. } => str_eq(n.as_str(), name),
                        XmlNode::Text { .. } => false,
                    };
                    proof {
                        assert(cs[i as int] == children[i as int]@);
                        assert(matches_name == spec_elem_named(cs[i as int], name@));
                    }
                    if matches_name {
                        out.push(&children[i]);
                    }
                    i = i + 1;
                }
                proof {
                    assert(cs.take(children.len() as int) =~= cs);
                }
                out
            },
        }
    }
}

} // verus!

verus! {

// ------------------------------------------------------------------
// Building trees
// ------------------------------------------------------------------

/// An element holding only character data (none at all when the text is
/// empty, so the empty string renders as a childless element).
pub open spec fn spec_text_node(name: Seq<char>, text: Seq<char>) -> SpecNode {
    SpecNode::Elem {
        name,
        attrs: Seq::empty(),
        children: if text.len() == 0 {
            Seq::empty()
        } else {
            seq![SpecNode::Text { text }]
        },
    }
}

/// Appending a node appends its view.
pub proof fn lemma_nodes_view_push(s: Seq<XmlNode>, x: XmlNode)
    ensures
        nodes_view(s.push(x)) == nodes_view(s) + seq![x@],
{
    assert(nodes_view(s.push(x)) =~= nodes_view(s) + seq![x@]);
}

/// One attribute.
pub fn attr(name: &str, value: String) -> (r: XmlAttr)
    ensures
        r@ == (SpecAttr { name: name@, value: value@ }),
{
    XmlAttr { name: String::from_str(name), value }
}

/// An element with attributes and children.
pub fn elem_with_attrs(name: &str, attrs: Vec<XmlAttr>, children: Vec<XmlNode>) -> (r: XmlNode)
    ensures
        r@ == (SpecNode::Elem {
            name: name@,
            attrs: attrs_view(attrs),
            children: children_view(children),
        }),
{
    let r = XmlNode::Elem { name: String::from_str(name), attrs, children };
    proof {
        assert(r@->Elem_children =~= children_view(children));
    }
    r
}

/// An element with children and no attributes.
pub fn elem(name: &str, children: Vec<XmlNode>) -> (r: XmlNode)
    ensures
        r@ == (SpecNode::Elem {
            name: name@,
            attrs: Seq::empty(),
            children: children_view(children),
        }),
{
    let attrs: Vec<XmlAttr> = Vec::new();
    proof {
        assert(attrs_view(attrs) =~= Seq::<SpecAttr>::empty());
    }
    elem_with_attrs(name, attrs, children)
}

/// An element with attributes holding only character data.
pub open spec fn spec_attr_text_node(name: Seq<char>, attrs: Seq<SpecAttr>, text: Seq<char>) -> SpecNode {
    SpecNode::Elem {
        name,
        attrs,
        children: if text.len() == 0 {
            Seq::empty()
        } else {
            seq![SpecNode::Text { text }]
        },
    }
}

/// An element with attributes holding only character data.
pub fn attr_text_node(name: &str, attrs: Vec<XmlAttr>, text: String) -> (r: XmlNode)
    ensures
        r@ == spec_attr_text_node(name@, attrs_view(attrs), text@),
{
    let mut children: Vec<XmlNode> = Vec::new();
    if text.as_str().unicode_len() > 0 {
        children.push(XmlNode::Text { text });
        proof {
            assert(children_view(children) =~= seq![SpecNode::Text { text: text@ }]);
        }
    } else {
        proof {
            assert(children_view(children) =~= Seq::<SpecNode>::empty());
        }
    }
    elem_with_attrs(name, attrs, children)
}

/// An element holding only character data.
pub fn text_node(name: &str, text: String) -> (r: XmlNode)
    ensures
        r@ == spec_text_node(name@, text@),
{
    let mut children: Vec<XmlNode> = Vec::new();
    if text.as_str().unicode_len() > 0 {
        children.push(XmlNode::Text { text });
        proof {
            assert(children_view(children) =~= spec_text_node(name@, text@)->Elem_children);
        }
    } else {
        proof {
            assert(children_view(children) =~= Seq::<SpecNode>::empty());
        }
    }
    elem(name, children)
}

/// A text element for each string, in order.
#[verifier::loop_isolation(false)]
pub fn text_nodes(name: &str, texts: &Vec<String>) -> (r: Vec<XmlNode>)
    ensures
        children_view(r) == texts@.map_values(|t: String| spec_text_node(name@, t@)),
{
    let ghost goal = texts@.map_values(|t: String| spec_text_node(name@, t@));
    let mut r: Vec<XmlNode> = Vec::new();
    let mut i: usize = 0;
    while i < texts.len()
        invariant
            0 <= i <= texts.len(),
            children_view(r) =~= goal.take(i as int),
        decreases texts.len() - i,
    {
        let node = text_node(name, String::from_str(texts[i].as_str()));
        let ghost prev = r@;
        r.push(node);
        proof {
            lemma_nodes_view_push(prev, node);
            assert(children_view(r) =~= goal.take(i + 1 as int));
        }
        i = i + 1;
    }
    proof {
        assert(goal.take(texts.len() as int) =~= goal);
    }
    r
}

} // verus!

verus! {

// ------------------------------------------------------------------
// Checking well-formedness
// ------------------------------------------------------------------

fn is_name_char(c: char) -> (b: bool)
    ensures
        b == name_char(c),
{
    !(c == ' ' || c == '/' || c == '>' || c == '=' || c == '"' || c == '<' || c == '&' || c == '\''
        || c == '?' || c == '\t' || c == '\r' || c == '\n')
}

/// Whether `s` can stand as an element or attribute name.
#[verifier::loop_isolation(false)]
pub fn is_wf_name_str(s: &str) -> (b: bool)
    ensures
        b == wf_name(s@),
{
    let n = s.unicode_len();
    if n == 0 {
        return false;
    }
    let mut i: usize = 0;
    while i < n
        invariant
            0 <= i <= n,
            forall|j: int| 0 <= j < i ==> name_char(#[trigger] s@[j]),
        decreases n - i,
    {
        if !is_name_char(s.get_char(i)) {
            return false;
        }
        i = i + 1;
    }
    true
}

/// Whether `s` can stand as character data.
pub fn is_wf_text_str(s: &str) -> (b: bool)
    ensures
        b == wf_text(s@),
{
    s.unicode_len() > 0
}

impl XmlNode {
    /// Whether this tree is well formed: renderable without escaping and
    /// parseable back to itself.
    #[verifier::loop_isolation(false)]
    pub fn is_wf(&self) -> (b: bool)
        ensures
            b == wf_node(self@),
        decreases self,
    {
        match self {
            XmlNode::Text { text } => is_wf_text_str(text.as_str()),
            XmlNode::Elem { name, attrs, children } => {
                if !is_wf_name_str(name.as_str()) {
                    return false;
                }
                let ghost avs = self@->Elem_attrs;
                let ghost cs = self@->Elem_children;
                let mut i: usize = 0;
                while i < attrs.len()
                    invariant
                        0 <= i <= attrs.len(),
                        forall|j: int| 0 <= j < i ==> wf_attr(#[trigger] avs[j]),
                    decreases attrs.len() - i,
                {
                    proof {
                        assert(avs[i as int] == attrs[i as int]@);
                    }
                    if !is_wf_name_str(attrs[i].name.as_str()) {
                        return false;
                    }
                    i = i + 1;
                }
                let mut k: usize = 0;
                while k < children.len()
                    invariant
                        0 <= k <= children.len(),
                        forall|j: int| 0 <= j < k ==> wf_node(#[trigger] cs[j]),
                        forall|j: int|
                            0 <= j < k - 1 ==> !((#[trigger] cs[j]) is Text && cs[j
                                + 1] is Text),
                    decreases children.len() - k,
                {
                    proof {
                        assert(decreases_to!(*self => children[k as int]));
                        assert(cs[k as int] == children[k as int]@);
                    }
                    if !children[k].is_wf() {
                        return false;
                    }
                    if k > 0 {
                        let prev_text = match &children[k - 1] {
                            XmlNode::Text { .. } => true,
                            XmlNode::Elem { .. } => false,
                        };
                        let cur_text = match &children[k] {
                            XmlNode::Text { .. } => true,
                            XmlNode::Elem { .. } => false,
                        };
                        proof {
                            assert(cs[k - 1 as int] == children[k - 1 as int]@);
                        }
                        if prev_text && cur_text {
                            return false;
                        }
                    }
                    k = k + 1;
                }
                true
            },
        }
    }
}

} // verus!

verus! {

/// A found child is an element of the requested name, and only elements
/// have children.
pub proof fn lemma_child_of_named(children: Seq<SpecNode>, name: Seq<char>)
    ensures
        spec_child_of(children, name) matches Some(c) ==> spec_elem_named(c, name),
    decreases children.len(),
{
    if children.len() > 0 && !spec_elem_named(children[0], name) {
        lemma_child_of_named(children.drop_first(), name);
    }
}

/// A found node child is an element of the requested name.
pub proof fn lemma_node_child_named(n: SpecNode, name: Seq<char>)
    ensures
        spec_node_child(n, name) matches Some(c) ==> spec_elem_named(c, name) && n is Elem,
{
    if n is Elem {
        lemma_child_of_named(n->Elem_children, name);
    }
}

} // verus!

verus! {

/// Move every node of `src` to the end of `dst`.
pub fn append_nodes(dst: &mut Vec<XmlNode>, src: Vec<XmlNode>)
    ensures
        children_view(*final(dst)) == children_view(*old(dst)) + children_view(src),
{
    let ghost a = old(dst)@;
    let ghost b = src@;
    let mut s = src;
    dst.append(&mut s);
    proof {
        assert(children_view(*dst) =~= children_view(*old(dst)) + children_view(src)) by {
            assert(dst@ == a + b);
            assert forall|i: int| 0 <= i < a.len() + b.len() implies children_view(*dst)[i] == (
            children_view(*old(dst)) + children_view(src))[i] by {
                if i < a.len() {
                    assert((a + b)[i] == a[i]);
                } else {
                    assert((a + b)[i] == b[i - a.len()]);
                }
            }
        }
    }
}

} // verus!

verus! {

/// When every node in a list is an element of the given name, filtering
/// by that name keeps the whole list.
pub proof fn lemma_children_named_all(children: Seq<SpecNode>, name: Seq<char>)
    requires
        forall|i: int| 0 <= i < children.len() ==> spec_elem_named(#[trigger] children[i], name),
    ensures
        spec_children_named(children, name) == children,
    decreases children.len(),
{
    if children.len() > 0 {
        lemma_children_named_all(children.drop_last(), name);
        assert(spec_children_named(children, name) =~= children);
    }
}

} // verus!

verus! {

// ------------------------------------------------------------------
// Escaping
// ------------------------------------------------------------------

/// The characters the wire form escapes in character data and in
/// attribute values.
pub open spec fn escaped_char(c: char) -> bool {
    c == '&' || c == '<' || c == '>' || c == '"' || c == '\''
}

/// The entity standing for one escaped character.
pub open spec fn spec_entity(c: char) -> Seq<char>
    recommends
        escaped_char(c),
{
    if c == '&' {
        seq!['&', 'a', 'm', 'p', ';']
    } else if c == '<' {
        seq!['&', 'l', 't', ';']
    } else if c == '>' {
        seq!['&', 'g', 't', ';']
    } else if c == '"' {
        seq!['&', 'q', 'u', 'o', 't', ';']
    } else {
        seq!['&', 'a', 'p', 'o', 's', ';']
    }
}

/// The escaped wire form of character data: each markup character
/// becomes its entity, every other character stands as itself.
pub open spec fn spec_escape(s: Seq<char>) -> Seq<char>
    decreases s.len(),
{
    if s.len() == 0 {
        Seq::empty()
    } else {
        (if escaped_char(s[0]) {
            spec_entity(s[0])
        } else {
            seq![s[0]]
        }) + spec_escape(s.drop_first())
    }
}

/// The unescaped reading of a raw run: entities become their characters;
/// a malformed entity reads as nothing.
pub open spec fn spec_unescape(s: Seq<char>) -> Option<Seq<char>>
    decreases s.len(),
{
    if s.len() == 0 {
        Some(Seq::empty())
    } else if s[0] == '&' {
        if s.len() >= 5 && s.subrange(0, 5) == seq!['&', 'a', 'm', 'p', ';'] {
            match spec_unescape(s.skip(5)) {
                Some(t) => Some(seq!['&'] + t),
                None => None,
            }
        } else if s.len() >= 4 && s.subrange(0, 4) == seq!['&', 'l', 't', ';'] {
            match spec_unescape(s.skip(4)) {
                Some(t) => Some(seq!['<'] + t),
                None => None,
            }
        } else if s.len() >= 4 && s.subrange(0, 4) == seq!['&', 'g', 't', ';'] {
            match spec_unescape(s.skip(4)) {
                Some(t) => Some(seq!['>'] + t),
                None => None,
            }
        } else if s.len() >= 6 && s.subrange(0, 6) == seq!['&', 'q', 'u', 'o', 't', ';'] {
            match spec_unescape(s.skip(6)) {
                Some(t) => Some(seq!['"'] + t),
                None => None,
            }
        } else if s.len() >= 6 && s.subrange(0, 6) == seq!['&', 'a', 'p', 'o', 's', ';'] {
            match spec_unescape(s.skip(6)) {
                Some(t) => Some(seq!['\''] + t),
                None => None,
            }
        } else {
            None
        }
    } else {
        match spec_unescape(s.drop_first()) {
            Some(t) => Some(seq![s[0]] + t),
            None => None,
        }
    }
}

/// Escaped character data holds no raw markup: in particular no `<` to
/// end a text scan early and no `"` to end a value scan early.
pub proof fn lemma_escape_chars(s: Seq<char>)
    ensures
        forall|i: int|
            0 <= i < spec_escape(s).len() ==> #[trigger] spec_escape(s)[i] != '<'
                && spec_escape(s)[i] != '"',
        s.len() > 0 ==> spec_escape(s).len() > 0,
    decreases s.len(),
{
    if s.len() > 0 {
        lemma_escape_chars(s.drop_first());
        let head = if escaped_char(s[0]) {
            spec_entity(s[0])
        } else {
            seq![s[0]]
        };
        assert forall|i: int| 0 <= i < spec_escape(s).len() implies #[trigger] spec_escape(s)[i]
            != '<' && spec_escape(s)[i] != '"' by {
            if i < head.len() {
                assert(spec_escape(s)[i] == head[i]);
            } else {
                assert(spec_escape(s)[i] == spec_escape(s.drop_first())[i - head.len()]);
            }
        }
    }
}

/// Splitting character data splits its escaping.
pub proof fn lemma_escape_concat(a: Seq<char>, b: Seq<char>)
    ensures
        spec_escape(a + b) == spec_escape(a) + spec_escape(b),
    decreases a.len(),
{
    if a.len() == 0 {
        assert(a + b =~= b);
        assert(spec_escape(a) + spec_escape(b) =~= spec_escape(b));
    } else {
        assert((a + b).drop_first() =~= a.drop_first() + b);
        lemma_escape_concat(a.drop_first(), b);
        let head = if escaped_char(a[0]) {
            spec_entity(a[0])
        } else {
            seq![a[0]]
        };
        assert((a + b)[0] == a[0]);
        assert(head + (spec_escape(a.drop_first()) + spec_escape(b)) =~= (head + spec_escape(
            a.drop_first(),
        )) + spec_escape(b));
    }
}

/// Unescaping inverts escaping.
pub proof fn lemma_unescape_escape(s: Seq<char>)
    ensures
        spec_unescape(spec_escape(s)) == Some(s),
    decreases s.len(),
{
    if s.len() == 0 {
    } else {
        lemma_unescape_escape(s.drop_first());
        let head = if escaped_char(s[0]) {
            spec_entity(s[0])
        } else {
            seq![s[0]]
        };
        let e = spec_escape(s);
        let rest = spec_escape(s.drop_first());
        assert(e == head + rest);
        lemma_indexes_any(e, head, rest);
        assert(e.skip(head.len() as int) =~= rest);
        if !escaped_char(s[0]) {
            assert(e[0] == s[0]);
            assert(e.drop_first() =~= rest);
            assert(seq![s[0]] + s.drop_first() =~= s);
        } else {
            if s[0] == '&' {
                assert(e.subrange(0, 5) =~= seq!['&', 'a', 'm', 'p', ';']);
                assert(seq!['&'] + s.drop_first() =~= s);
            } else if s[0] == '<' {
                assert(e.len() >= 5 ==> e.subrange(0, 5)[1] == 'l');
                assert(e.subrange(0, 4) =~= seq!['&', 'l', 't', ';']);
                assert(seq!['<'] + s.drop_first() =~= s);
            } else if s[0] == '>' {
                assert(e.len() >= 5 ==> e.subrange(0, 5)[1] == 'g');
                assert(e.subrange(0, 4) =~= seq!['&', 'g', 't', ';']);
                assert(seq!['>'] + s.drop_first() =~= s);
            } else if s[0] == '"' {
                assert(e.subrange(0, 5)[1] == 'q');
                assert(e.len() >= 4 ==> e.subrange(0, 4)[1] == 'q');
                assert(e.subrange(0, 6) =~= seq!['&', 'q', 'u', 'o', 't', ';']);
                assert(seq!['"'] + s.drop_first() =~= s);
            } else {
                assert(e.subrange(0, 5)[2] == 'p');
                assert(e.len() >= 4 ==> e.subrange(0, 4)[1] == 'a' && e.subrange(0, 4)[2] == 'p');
                assert(e.subrange(0, 6) =~= seq!['&', 'a', 'p', 'o', 's', ';']);
                assert(seq!['\''] + s.drop_first() =~= s);
            }
        }
    }
}

/// Indexes of a known concatenation.
proof fn lemma_indexes_any(e: Seq<char>, head: Seq<char>, rest: Seq<char>)
    requires
        e == head + rest,
    ensures
        forall|i: int| 0 <= i < head.len() ==> #[trigger] e[i] == head[i],
        forall|i: int|
            head.len() <= i < e.len() ==> #[trigger] e[i] == rest[i - head.len()],
{
    assert forall|i: int| 0 <= i < head.len() implies #[trigger] e[i] == head[i] by {
        assert((head + rest)[i] == head[i]);
    }
    assert forall|i: int| head.len() <= i < e.len() implies #[trigger] e[i] == rest[i
        - head.len()] by {
        assert((head + rest)[i] == rest[i - head.len()]);
    }
}

} // verus!

verus! {

/// Append the escaped wire form of `s` to `out`.
#[verifier::loop_isolation(false)]
pub fn append_escaped(out: &mut String, s: &str)
    ensures
        final(out)@ == old(out)@ + spec_escape(s@),
{
    proof {
        reveal_strlit("&amp;");
        reveal_strlit("&lt;");
        reveal_strlit("&gt;");
        reveal_strlit("&quot;");
        reveal_strlit("&apos;");
        assert("&amp;"@ =~= seq!['&', 'a', 'm', 'p', ';']);
        assert("&lt;"@ =~= seq!['&', 'l', 't', ';']);
        assert("&gt;"@ =~= seq!['&', 'g', 't', ';']);
        assert("&quot;"@ =~= seq!['&', 'q', 'u', 'o', 't', ';']);
        assert("&apos;"@ =~= seq!['&', 'a', 'p', 'o', 's', ';']);
    }
    let n = s.unicode_len();
    let mut i: usize = 0;
    while i < n
        invariant
            0 <= i <= n,
            out@ == old(out)@ + spec_escape(s@.take(i as int)),
        decreases n - i,
    {
        let c = s.get_char(i);
        if c == '&' {
            out.append("&amp;");
        } else if c == '<' {
            out.append("&lt;");
        } else if c == '>' {
            out.append("&gt;");
        } else if c == '"' {
            out.append("&quot;");
        } else if c == '\'' {
            out.append("&apos;");
        } else {
            out.append(s.substring_char(i, i + 1));
        }
        proof {
            assert(s@.take(i + 1 as int) =~= s@.take(i as int) + seq![s@[i as int]]);
            lemma_escape_concat(s@.take(i as int), seq![s@[i as int]]);
            assert(seq![s@[i as int]].drop_first() =~= Seq::<char>::empty());
            assert(spec_escape(Seq::<char>::empty()) =~= Seq::<char>::empty());
            if !escaped_char(s@[i as int]) {
                assert(s@.subrange(i as int, i + 1 as int) =~= seq![s@[i as int]]);
            }
            assert(spec_escape(seq![s@[i as int]]) =~= (if escaped_char(s@[i as int]) {
                spec_entity(s@[i as int])
            } else {
                seq![s@[i as int]]
            }));
            assert(out@ =~= old(out)@ + spec_escape(s@.take(i + 1 as int)));
        }
        i = i + 1;
    }
    proof {
        assert(s@.take(n as int) =~= s@);
    }
}

/// Read a raw escaped run back into its character data.
#[verifier::loop_isolation(false)]
#[verifier::rlimit(60)]
pub fn unescape_text(s: &str) -> (r: Option<String>)
    ensures
        match r {
            Some(t) => spec_unescape(s@) == Some(t@),
            None => spec_unescape(s@) is None,
        },
{
    proof {
        reveal_strlit("&amp;");
        reveal_strlit("&lt;");
        reveal_strlit("&gt;");
        reveal_strlit("&quot;");
        reveal_strlit("&apos;");
        reveal_strlit("&");
        reveal_strlit("<");
        reveal_strlit(">");
        reveal_strlit("\"");
        reveal_strlit("'");
        assert("&amp;"@ =~= seq!['&', 'a', 'm', 'p', ';']);
        assert("&lt;"@ =~= seq!['&', 'l', 't', ';']);
        assert("&gt;"@ =~= seq!['&', 'g', 't', ';']);
        assert("&quot;"@ =~= seq!['&', 'q', 'u', 'o', 't', ';']);
        assert("&apos;"@ =~= seq!['&', 'a', 'p', 'o', 's', ';']);
    }
    let n = s.unicode_len();
    let mut out = String::new();
    let mut i: usize = 0;
    proof {
        assert(s@.skip(0) =~= s@);
        if spec_unescape(s@) is Some {
            assert(out@ + spec_unescape(s@)->Some_0 =~= spec_unescape(s@)->Some_0);
        }
    }
    while i < n
        invariant
            0 <= i <= n,
            spec_unescape(s@) == (match spec_unescape(s@.skip(i as int)) {
                Some(t) => Some(out@ + t),
                None => None::<Seq<char>>,
            }),
        decreases n - i,
    {
        let ghost before = s@.skip(i as int);
        let c = s.get_char(i);
        if c != '&' {
            out.append(s.substring_char(i, i + 1));
            proof {
                assert(before[0] == s@[i as int]);
                assert(before.drop_first() =~= s@.skip(i + 1 as int));
                assert(s@.subrange(i as int, i + 1 as int) =~= seq![s@[i as int]]);
            }
            i = i + 1;
        } else if region_matches(s, i, "&amp;") {
            out.append("&");
            proof {
                assert(before.subrange(0, 5) =~= s@.subrange(i as int, i + 5 as int));
                assert(before.skip(5) =~= s@.skip(i + 5 as int));
            }
            i = i + 5;
        } else if region_matches(s, i, "&lt;") {
            out.append("<");
            proof {
                assert(before.subrange(0, 4) =~= s@.subrange(i as int, i + 4 as int));
                assert(before.len() < 5 || before.subrange(0, 5)[1] != 'a');
                assert(before.skip(4) =~= s@.skip(i + 4 as int));
            }
            i = i + 4;
        } else if region_matches(s, i, "&gt;") {
            out.append(">");
            proof {
                assert(before.subrange(0, 4) =~= s@.subrange(i as int, i + 4 as int));
                assert(before.len() < 5 || before.subrange(0, 5)[1] != 'a');
                assert(before.skip(4) =~= s@.skip(i + 4 as int));
            }
            i = i + 4;
        } else if region_matches(s, i, "&quot;") {
            out.append("\"");
            proof {
                assert(before.subrange(0, 6) =~= s@.subrange(i as int, i + 6 as int));
                assert(before.subrange(0, 6)[1] == 'q');
                assert(before.len() < 5 || before.subrange(0, 5)[1] == before.subrange(0, 6)[1]);
                assert(before.len() < 4 || before.subrange(0, 4)[1] == before.subrange(0, 6)[1]);
                assert(before.skip(6) =~= s@.skip(i + 6 as int));
            }
            i = i + 6;
        } else if region_matches(s, i, "&apos;") {
            out.append("'");
            proof {
                assert(before.subrange(0, 6) =~= s@.subrange(i as int, i + 6 as int));
                assert(before.subrange(0, 6)[2] == 'p');
                assert(before.len() < 5 || before.subrange(0, 5)[2] == before.subrange(0, 6)[2]);
                assert(before.len() < 4 || (before.subrange(0, 4)[1] == before.subrange(0, 6)[1]
                    && before.subrange(0, 4)[2] == before.subrange(0, 6)[2]));
                assert(before.skip(6) =~= s@.skip(i + 6 as int));
            }
            i = i + 6;
        } else {
            proof {
                assert(before.len() >= 5 && before.subrange(0, 5) == seq!['&', 'a', 'm', 'p', ';']
                    ==> before.subrange(0, 5) =~= s@.subrange(i as int, i + 5 as int));
                assert(before.len() >= 4 && before.subrange(0, 4) == seq!['&', 'l', 't', ';']
                    ==> before.subrange(0, 4) =~= s@.subrange(i as int, i + 4 as int));
                assert(before.len() >= 4 && before.subrange(0, 4) == seq!['&', 'g', 't', ';']
                    ==> before.subrange(0, 4) =~= s@.subrange(i as int, i + 4 as int));
                assert(before.len() >= 6 && before.subrange(0, 6) == seq!['&', 'q', 'u', 'o', 't', ';']
                    ==> before.subrange(0, 6) =~= s@.subrange(i as int, i + 6 as int));
                assert(before.len() >= 6 && before.subrange(0, 6) == seq!['&', 'a', 'p', 'o', 's', ';']
                    ==> before.subrange(0, 6) =~= s@.subrange(i as int, i + 6 as int));
            }
            return None;
        }
    }
    proof {
        assert(s@.skip(n as int) =~= Seq::<char>::empty());
        assert(out@ + Seq::<char>::empty() =~= out@);
    }
    Some(out)
}

} // verus!
