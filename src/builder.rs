use vstd::prelude::*;

use crate::item::StringItem;

verus! {

/// The chain of last children of `item` is at least `level` items long, so that
/// there is an item `level` steps down it.
pub open spec fn has_spine(item: StringItem, level: nat) -> bool
    decreases level,
{
    level == 0 || (item.children@.len() > 0 && has_spine(item.children@.last(), (level - 1) as nat))
}

/// `new` is `old` with `child` added as the last child of the item `level` steps
/// down the chain of last children.
pub open spec fn appended(old: StringItem, new: StringItem, level: nat, child: StringItem) -> bool
    decreases level,
{
    let n = old.children@.len();
    &&& new.text@ == old.text@
    &&& if level == 0 {
        new.children@ == old.children@.push(child)
    } else {
        &&& n > 0
        &&& new.children@.len() == n
        &&& new.children@.drop_last() == old.children@.drop_last()
        &&& appended(old.children@.last(), new.children@.last(), (level - 1) as nat, child)
    }
}

/// The leaf item with text `text`.
pub open spec fn is_leaf_with(item: StringItem, text: Seq<char>) -> bool {
    item.text@ == text && item.children@.len() == 0
}

/// A builder for a tree of [`StringItem`]s
///
/// The builder holds the tree built so far and a current item: the item
/// `level` steps down the chain of last children, to which children are added.
pub struct TreeBuilder {
    item: StringItem,
    level: u32,
}

impl TreeBuilder {
    /// The tree built so far.
    pub closed spec fn tree(&self) -> StringItem {
        self.item
    }

    /// The depth of the current item.
    pub closed spec fn level(&self) -> nat {
        self.level as nat
    }

    /// The current item exists.
    pub closed spec fn wf(&self) -> bool {
        has_spine(self.item, self.level as nat)
    }

    /// Start building a tree
    ///
    /// The `text` argument will be the top level item's text.
    pub fn new(text: String) -> (r: TreeBuilder)
        ensures
            r.wf(),
            r.level() == 0,
            is_leaf_with(r.tree(), text@),
    {
        TreeBuilder { item: StringItem { text, children: Vec::new() }, level: 0 }
    }

    fn append_child_level(parent: &mut StringItem, level: u32, item: StringItem)
        requires
            has_spine(*old(parent), level as nat),
        ensures
            appended(*old(parent), *final(parent), level as nat, item),
        decreases level,
    {
        if level == 0 {
            parent.children.push(item);
        } else {
            let mut last = parent.children.pop().unwrap();
            TreeBuilder::append_child_level(&mut last, level - 1, item);
            parent.children.push(last);
            assert(parent.children@.drop_last() =~= old(parent).children@.drop_last());
        }
    }

    /// Add a child to the current item and make the new child current
    pub fn begin_child(&mut self, text: String) -> (r: &mut Self)
        requires
            old(self).wf(),
            old(self).level() < u32::MAX,
        ensures
            r.wf(),
            r.level() == old(self).level() + 1,
            exists|c: StringItem|
                is_leaf_with(c, text@) && appended(old(self).tree(), r.tree(), old(self).level(), c),
            *final(self) == *final(r),
    {
        let ghost old_item = self.item;
        let ghost old_level = self.level as nat;
        let child = StringItem { text, children: Vec::new() };
        let ghost c = child;
        assert(is_leaf_with(c, text@));
        TreeBuilder::append_child_level(&mut self.item, self.level, child);
        proof {
            lemma_appended_spine(old_item, self.item, self.level as nat, c);
        }
        self.level = self.level + 1;
        assert(is_leaf_with(c, text@) && appended(old_item, self.item, old_level, c));
        self
    }

    /// Finish adding children, and make the current item's parent current
    pub fn end_child(&mut self) -> (r: &mut Self)
        requires
            old(self).wf(),
            old(self).level() > 0,
        ensures
            r.wf(),
            r.level() == old(self).level() - 1,
            r.tree() == old(self).tree(),
            *final(self) == *final(r),
    {
        proof {
            lemma_spine_shorter(self.item, self.level as nat);
        }
        self.level = self.level - 1;
        self
    }

    /// Add an empty child (leaf item) to the current item
    pub fn add_empty_child(&mut self, text: String) -> (r: &mut Self)
        requires
            old(self).wf(),
            old(self).level() < u32::MAX,
        ensures
            r.wf(),
            r.level() == old(self).level(),
            exists|c: StringItem|
                is_leaf_with(c, text@) && appended(old(self).tree(), r.tree(), old(self).level(), c),
            *final(self) == *final(r),
    {
        self.begin_child(text).end_child()
    }

    /// Finish building the tree and return the top level item
    ///
    /// The builder keeps its state, so that building can go on.
    pub fn build(&mut self) -> (r: StringItem)
        ensures
            old(self).tree().same_tree(r),
            *final(self) == *old(self),
    {
        self.item.copy()
    }
}

/// A spine one shorter is there too.
proof fn lemma_spine_shorter(item: StringItem, level: nat)
    requires
        level > 0,
        has_spine(item, level),
    ensures
        has_spine(item, (level - 1) as nat),
    decreases level,
{
    if level > 1 {
        lemma_spine_shorter(item.children@.last(), (level - 1) as nat);
    }
}

/// Adding a child below the item `level` steps down makes the chain one longer.
proof fn lemma_appended_spine(old: StringItem, new: StringItem, level: nat, child: StringItem)
    requires
        appended(old, new, level, child),
    ensures
        has_spine(new, level + 1),
    decreases level,
{
    if level > 0 {
        lemma_appended_spine(old.children@.last(), new.children@.last(), (level - 1) as nat, child);
    } else {
        assert(new.children@.last() == child);
        assert(has_spine(new.children@.last(), 0));
    }
    assert(new.children@.len() > 0);
    assert(((level + 1) - 1) as nat == level);
}

} // verus!
