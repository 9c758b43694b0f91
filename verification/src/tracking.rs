use vstd::prelude::*;
use crate::types::PlayerPartTextureType;

verus! {

pub open spec fn opt_view(o: Option<String>) -> Option<Seq<char>> {
    match o {
        Some(n) => Some(n@),
        None => None,
    }
}

/// The name of a part and the groups it is nested in, outermost first.
#[derive(Debug, Clone)]
pub struct PartTrackingData {
    name: Option<String>,
    group: Vec<String>,
}

impl PartTrackingData {
    pub closed spec fn spec_name(&self) -> Option<Seq<char>> {
        opt_view(self.name)
    }

    pub closed spec fn spec_groups(&self) -> Seq<Seq<char>> {
        self.group@.map_values(|g: String| g@)
    }

    /// Tracking data for a part with the given name and no groups.
    pub fn new(name: Option<String>) -> (r: Self)
        ensures
            r.spec_name() == opt_view(name),
            r.spec_groups() == Seq::<Seq<char>>::empty(),
    {
        let r = PartTrackingData { name, group: Vec::new() };
        assert(r.spec_groups() =~= Seq::<Seq<char>>::empty());
        r
    }

    pub fn name(&self) -> (r: Option<&String>)
        ensures
            match r {
                Some(n) => self.spec_name() == Some(n@),
                None => self.spec_name() is None,
            },
    {
        self.name.as_ref()
    }

    /// The name, for changing in place.
    pub fn name_mut(&mut self) -> (r: &mut Option<String>)
        ensures
            opt_view(*r) == old(self).spec_name(),
            final(self).spec_name() == opt_view(*final(r)),
            final(self).spec_groups() == old(self).spec_groups(),
    {
        &mut self.name
    }

    /// The groups the part is nested in, outermost first.
    pub fn group(&self) -> (r: &[String])
        ensures
            r@.map_values(|g: String| g@) == self.spec_groups(),
    {
        self.group.as_slice()
    }

    /// Nests the part in one more group, innermost.
    pub fn push_group(&mut self, group: String)
        ensures
            final(self).spec_groups() == old(self).spec_groups().push(group@),
            final(self).spec_name() == old(self).spec_name(),
    {
        self.group.push(group);
        assert(self.spec_groups() =~= old(self).spec_groups().push(group@));
    }

    /// Nests the part in more groups, in the given order.
    pub fn push_groups(&mut self, groups: Vec<String>)
        ensures
            final(self).spec_groups() == old(self).spec_groups() + groups@.map_values(|g: String| g@),
            final(self).spec_name() == old(self).spec_name(),
    {
        let mut groups = groups;
        let ghost added = groups@;
        self.group.append(&mut groups);
        assert(self.spec_groups() =~= old(self).spec_groups() + added.map_values(|g: String| g@));
    }
}

/// The texture and group stacks the Ears part builder keeps while it lays out
/// parts: the texture on top is the one new quads are drawn with, and the
/// groups are the ones new parts are nested in.
#[derive(Debug, Clone)]
pub struct PartBuilderStacks {
    texture_stack: Vec<PlayerPartTextureType>,
    group_stack: Vec<String>,
}

impl PartBuilderStacks {
    /// The texture stack is never empty.
    pub closed spec fn wf(&self) -> bool {
        self.texture_stack@.len() > 0
    }

    pub closed spec fn spec_textures(&self) -> Seq<PlayerPartTextureType> {
        self.texture_stack@
    }

    pub closed spec fn spec_groups(&self) -> Seq<Seq<char>> {
        self.group_stack@.map_values(|g: String| g@)
    }

    /// Starts with the skin texture and no groups.
    pub fn new() -> (r: Self)
        ensures
            r.wf(),
            r.spec_textures() == seq![PlayerPartTextureType::Skin],
            r.spec_groups() == Seq::<Seq<char>>::empty(),
    {
        let r = PartBuilderStacks { texture_stack: vec![PlayerPartTextureType::Skin], group_stack: Vec::new() };
        assert(r.texture_stack@ =~= seq![PlayerPartTextureType::Skin]);
        assert(r.spec_groups() =~= Seq::<Seq<char>>::empty());
        r
    }

    /// The texture new quads are drawn with.
    pub fn current_texture(&self) -> (r: PlayerPartTextureType)
        requires
            self.wf(),
        ensures
            r == self.spec_textures().last(),
    {
        self.texture_stack[self.texture_stack.len() - 1]
    }

    pub fn push_texture(&mut self, texture: PlayerPartTextureType)
        requires
            old(self).wf(),
        ensures
            final(self).wf(),
            final(self).spec_textures() == old(self).spec_textures().push(texture),
            final(self).spec_groups() == old(self).spec_groups(),
    {
        self.texture_stack.push(texture);
    }

    /// Drops the texture on top; the bottom texture always stays.
    pub fn pop_texture(&mut self)
        requires
            old(self).wf(),
            old(self).spec_textures().len() > 1,
        ensures
            final(self).wf(),
            final(self).spec_textures() == old(self).spec_textures().drop_last(),
            final(self).spec_groups() == old(self).spec_groups(),
    {
        self.texture_stack.pop();
    }

    pub fn push_group(&mut self, name: String)
        requires
            old(self).wf(),
        ensures
            final(self).wf(),
            final(self).spec_groups() == old(self).spec_groups().push(name@),
            final(self).spec_textures() == old(self).spec_textures(),
    {
        self.group_stack.push(name);
        assert(self.spec_groups() =~= old(self).spec_groups().push(name@));
    }

    pub fn pop_group(&mut self)
        requires
            old(self).wf(),
            old(self).spec_groups().len() > 0,
        ensures
            final(self).wf(),
            final(self).spec_groups() == old(self).spec_groups().drop_last(),
            final(self).spec_textures() == old(self).spec_textures(),
    {
        self.group_stack.pop();
        assert(self.spec_groups() =~= old(self).spec_groups().drop_last());
    }

    /// The groups new parts are nested in, outermost first.
    pub fn groups(&self) -> (r: &Vec<String>)
        ensures
            r@.map_values(|g: String| g@) == self.spec_groups(),
    {
        &self.group_stack
    }
}

/// Pushing a texture makes it the current one, and popping it again leaves
/// the texture stack as it was; the same holds for groups.
pub proof fn lemma_push_then_pop_restores(
    b: PartBuilderStacks,
    t: PlayerPartTextureType,
    g: Seq<char>,
)
    ensures
        b.spec_textures().push(t).last() == t,
        b.spec_textures().push(t).drop_last() == b.spec_textures(),
        b.spec_groups().push(g).drop_last() == b.spec_groups(),
{
    assert(b.spec_textures().push(t).drop_last() =~= b.spec_textures());
    assert(b.spec_groups().push(g).drop_last() =~= b.spec_groups());
}

} // verus!
