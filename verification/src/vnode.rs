//! The render result: a plain tree describing one UI node — tag, text,
//! attributes, inline styles, element properties, and child nodes. The
//! external browser bridge turns such a tree into visible elements.

use vstd::prelude::*;
use vstd::string::StringExecFns;

verus! {

broadcast use vstd::std_specs::vec::group_vec_axioms, vstd::seq::group_seq_axioms;

/// One node of a rendered UI tree.
pub struct VNode {
    pub tag: String,
    pub text: Option<String>,
    pub attrs: Vec<(String, String)>,
    pub styles: Vec<(String, String)>,
    pub props: Vec<(String, String)>,
    pub children: Vec<VNode>,
}

/// Mathematical image of a `VNode`.
#[verifier::ext_equal]
pub ghost struct VNodeV {
    pub tag: Seq<char>,
    pub text: Option<Seq<char>>,
    pub attrs: Seq<(Seq<char>, Seq<char>)>,
    pub styles: Seq<(Seq<char>, Seq<char>)>,
    pub props: Seq<(Seq<char>, Seq<char>)>,
    pub children: Seq<VNodeV>,
}

pub open spec fn pair_views(ps: Seq<(String, String)>) -> Seq<(Seq<char>, Seq<char>)> {
    ps.map_values(|p: (String, String)| (p.0@, p.1@))
}

/// Mathematical image of a `VNode`, children included.
pub open spec fn vnode_view(n: VNode) -> VNodeV
    decreases n, 1int,
    via vnode_view_decreases
{
    VNodeV {
        tag: n.tag@,
        text: match n.text {
            Some(t) => Some(t@),
            None => None,
        },
        attrs: pair_views(n.attrs@),
        styles: pair_views(n.styles@),
        props: pair_views(n.props@),
        children: vnode_views(n.children@),
    }
}

/// Mathematical images of a sequence of nodes, in order.
pub open spec fn vnode_views(ns: Seq<VNode>) -> Seq<VNodeV>
    decreases ns, 0int,
{
    if ns.len() == 0 {
        Seq::empty()
    } else {
        vnode_views(ns.subrange(0, ns.len() - 1)).push(vnode_view(ns[ns.len() - 1]))
    }
}

#[via_fn]
proof fn vnode_view_decreases(n: VNode) {
    assert(decreases_to!(n => n.children));
    assert(decreases_to!(n.children => n.children@));
}

impl VNode {
    /// A childless node with the given tag and no content.
    pub fn element(tag: &str) -> (r: VNode)
        ensures
            vnode_view(r) == (VNodeV {
                tag: tag@,
                text: None,
                attrs: Seq::empty(),
                styles: Seq::empty(),
                props: Seq::empty(),
                children: Seq::empty(),
            }),
    {
        let r = VNode {
            tag: tag.to_owned(),
            text: None,
            attrs: Vec::new(),
            styles: Vec::new(),
            props: Vec::new(),
            children: Vec::new(),
        };
        proof {
            assert(r.children@.len() == 0);
            assert(vnode_view(r).children.len() == 0);
            assert(vnode_view(r).attrs =~= Seq::<(Seq<char>, Seq<char>)>::empty());
            assert(vnode_view(r).styles =~= Seq::<(Seq<char>, Seq<char>)>::empty());
            assert(vnode_view(r).props =~= Seq::<(Seq<char>, Seq<char>)>::empty());
            assert(vnode_view(r).children =~= Seq::<VNodeV>::empty());
        }
        r
    }

    /// Sets the node's text content.
    pub fn set_text(&mut self, text: String)
        ensures
            vnode_view(*final(self)) == (VNodeV { text: Some(text@), ..vnode_view(*old(self)) }),
    {
        self.text = Some(text);
    }

    /// Appends one attribute.
    pub fn push_attr(&mut self, key: &str, val: &str)
        ensures
            vnode_view(*final(self)) == (VNodeV {
                attrs: vnode_view(*old(self)).attrs.push((key@, val@)),
                ..vnode_view(*old(self))
            }),
    {
        self.attrs.push((key.to_owned(), val.to_owned()));
        proof {
            assert(vnode_view(*self).attrs =~= vnode_view(*old(self)).attrs.push((key@, val@)));
            assert(vnode_view(*self).children =~= vnode_view(*old(self)).children);
        }
    }

    /// Appends one inline style.
    pub fn push_style(&mut self, key: &str, val: &str)
        ensures
            vnode_view(*final(self)) == (VNodeV {
                styles: vnode_view(*old(self)).styles.push((key@, val@)),
                ..vnode_view(*old(self))
            }),
    {
        self.styles.push((key.to_owned(), val.to_owned()));
        proof {
            assert(vnode_view(*self).styles =~= vnode_view(*old(self)).styles.push((key@, val@)));
            assert(vnode_view(*self).children =~= vnode_view(*old(self)).children);
        }
    }

    /// Appends one element property.
    pub fn push_prop(&mut self, key: &str, val: &str)
        ensures
            vnode_view(*final(self)) == (VNodeV {
                props: vnode_view(*old(self)).props.push((key@, val@)),
                ..vnode_view(*old(self))
            }),
    {
        self.props.push((key.to_owned(), val.to_owned()));
        proof {
            assert(vnode_view(*self).props =~= vnode_view(*old(self)).props.push((key@, val@)));
            assert(vnode_view(*self).children =~= vnode_view(*old(self)).children);
        }
    }

    /// Appends one child node.
    pub fn push_child(&mut self, child: VNode)
        ensures
            vnode_view(*final(self)) == (VNodeV {
                children: vnode_view(*old(self)).children.push(vnode_view(child)),
                ..vnode_view(*old(self))
            }),
    {
        self.children.push(child);
        proof {
            let s = self.children@;
            assert(s.subrange(0, s.len() - 1) =~= old(self).children@);
            assert(s[s.len() - 1] == child);
            assert(vnode_view(*self).children =~= vnode_view(*old(self)).children.push(
                vnode_view(child),
            ));
        }
    }
}

/// A plain text block: a `div` holding the given content.
pub fn text_component(content: &str) -> (r: VNode)
    ensures
        vnode_view(r).tag == "div"@,
        vnode_view(r).text == Some(content@),
        vnode_view(r).styles == Seq::<(Seq<char>, Seq<char>)>::empty(),
        vnode_view(r).children == Seq::<VNodeV>::empty(),
{
    let mut n = VNode::element("div");
    n.set_text(content.to_owned());
    n
}

/// A bordered, padded `div` holding the given content in the given colour.
pub fn styled_component(content: &str, color: &str) -> (r: VNode)
    ensures
        vnode_view(r).tag == "div"@,
        vnode_view(r).text == Some(content@),
        vnode_view(r).styles == seq![
            ("color"@, color@),
            ("padding"@, "10px"@),
            ("border"@, "1px solid #ccc"@),
            ("border-radius"@, "4px"@),
        ],
        vnode_view(r).children == Seq::<VNodeV>::empty(),
{
    let mut n = VNode::element("div");
    n.set_text(content.to_owned());
    n.push_style("color", color);
    n.push_style("padding", "10px");
    n.push_style("border", "1px solid #ccc");
    n.push_style("border-radius", "4px");
    proof {
        assert(vnode_view(n).styles =~= seq![
            ("color"@, color@),
            ("padding"@, "10px"@),
            ("border"@, "1px solid #ccc"@),
            ("border-radius"@, "4px"@),
        ]);
    }
    n
}

} // verus!
