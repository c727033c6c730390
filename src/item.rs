use vstd::prelude::*;
use vstd::string::StringExecFns;

use crate::style::{painted, Style};

verus! {

/// Main trait for exposing a tree structure to `ptree`
///
/// An item writes its own text, and lists its children, which are items of the
/// same type. A leaf item has no children.
pub trait TreeItem: Sized {
    /// What `write_self` writes for this item in a given (resolved) style.
    spec fn written_self(&self, style: Style) -> Seq<char>;

    /// The item's children, in the order in which they are printed.
    spec fn child_items(&self) -> Seq<Self>;

    /// Write the item's own contents (without children) to `f`
    ///
    /// The provided `style` may be used for formatting hints; usually
    /// everything written is run through `Style::paint()`.
    fn write_self(&self, f: &mut String, style: &Style)
        requires
            style.is_resolved(),
        ensures
            final(f)@ == old(f)@ + self.written_self(*style),
    ;

    /// Retrieve a list of this item's children
    ///
    /// If the item contains no children (it is a leaf item), this method returns
    /// an empty list.
    fn children(&self) -> (r: &[Self])
        ensures
            r@ == self.child_items(),
    ;
}

/// A simple concrete implementation of `TreeItem` using `String`s
///
/// While a tree of `StringItem`s can be constructed directly,
/// it is usually easier to use a `TreeBuilder`.
#[derive(Debug)]
pub struct StringItem {
    /// The item's own text, to be returned by `write_self`
    pub text: String,
    /// The list of item's children
    pub children: Vec<StringItem>,
}

impl TreeItem for StringItem {
    open spec fn written_self(&self, style: Style) -> Seq<char> {
        painted(style, self.text@)
    }

    open spec fn child_items(&self) -> Seq<StringItem> {
        self.children@
    }

    fn write_self(&self, f: &mut String, style: &Style) {
        let text = style.paint(self.text.as_str());
        f.append(text.as_str());
    }

    fn children(&self) -> (r: &[StringItem]) {
        self.children.as_slice()
    }
}

impl StringItem {
    /// Two trees with the same texts in the same shape.
    pub open spec fn same_tree(&self, other: StringItem) -> bool
        decreases self,
    {
        &&& self.text@ == other.text@
        &&& self.children@.len() == other.children@.len()
        &&& forall|i: int|
            0 <= i < self.children@.len() ==> (#[trigger] self.children@[i]).same_tree(
                other.children@[i],
            )
    }

    /// Every tree is the same tree as itself.
    pub proof fn lemma_same_tree_reflexive(&self)
        ensures
            self.same_tree(*self),
        decreases self,
    {
        assert forall|i: int| 0 <= i < self.children@.len() implies (
        #[trigger] self.children@[i]).same_tree(self.children@[i]) by {
            self.children@[i].lemma_same_tree_reflexive();
        }
    }

    /// A copy of this tree.
    pub fn copy(&self) -> (r: StringItem)
        ensures
            self.same_tree(r),
        decreases self,
    {
        let mut children: Vec<StringItem> = Vec::new();
        let mut i: usize = 0;
        while i < self.children.len()
            invariant
                i <= self.children@.len(),
                children@.len() == i,
                forall|j: int| 0 <= j < i ==> (#[trigger] self.children@[j]).same_tree(children@[j]),
            decreases self.children@.len() - i,
        {
            let c = self.children[i].copy();
            children.push(c);
            i += 1;
        }
        StringItem { text: self.text.clone(), children }
    }
}

impl Clone for StringItem {
    fn clone(&self) -> StringItem {
        self.copy()
    }
}

} // verus!
