//! The session record: a template, an argument map, and an optional owner.
//!
//! The session is the unit of streaming and of access control.  `owner` is
//! absent for public sessions and holds the authenticated subject for owned
//! sessions; once set it never changes, and it is the sole field consulted
//! for authorization on owned endpoints.

use vstd::prelude::*;

use crate::args::ArgMap;
use crate::SvgFrame;

verus! {

#[derive(Debug)]
pub struct SessionData {
    pub template: String,
    pub args: ArgMap,
    pub owner: Option<String>,
}

impl SessionData {
    pub open spec fn wf(&self) -> bool {
        self.args.wf()
    }

    /// The content of this session's current frame: the template rendered
    /// against the current arguments.
    pub open spec fn spec_frame_content(&self) -> Seq<char> {
        crate::render::spec_render(
            self.template@,
            crate::json::spec_args_object(self.args.spec_entries()),
        )
    }

    /// A public session: no owner.
    pub fn new(template: String, args: ArgMap) -> (r: Self)
        ensures
            r.template@ == template@,
            r.args == args,
            r.owner is None,
    {
        SessionData { template, args, owner: None }
    }

    /// An owned session: the owner is the authenticated subject that
    /// created it.
    pub fn new_with_owner(template: String, args: ArgMap, owner: String) -> (r: Self)
        ensures
            r.template@ == template@,
            r.args == args,
            r.owner matches Some(o) && o@ == owner@,
    {
        SessionData { template, args, owner: Some(owner) }
    }

    /// Binds one argument, replacing any previous binding of the key.
    pub fn set_arg(&mut self, key: String, value: String)
        requires
            old(self).wf(),
        ensures
            final(self).wf(),
            final(self).args.spec_get(key@) == Some(value@),
            forall|k: Seq<char>|
                k != key@ ==> final(self).args.spec_get(k) == old(self).args.spec_get(k),
            final(self).template == old(self).template,
            final(self).owner == old(self).owner,
    {
        self.args.insert(key, value);
    }

    /// Replaces the argument map wholesale: no binding of the previous map
    /// survives unless the new map carries it.
    pub fn replace_args(&mut self, new_args: ArgMap)
        ensures
            final(self).args == new_args,
            final(self).template == old(self).template,
            final(self).owner == old(self).owner,
    {
        self.args = new_args;
    }

    pub fn remove_arg(&mut self, key: &str)
        requires
            old(self).wf(),
        ensures
            final(self).wf(),
            final(self).args.spec_get(key@) == None::<Seq<char>>,
            forall|k: Seq<char>|
                k != key@ ==> final(self).args.spec_get(k) == old(self).args.spec_get(k),
            final(self).template == old(self).template,
            final(self).owner == old(self).owner,
    {
        self.args.remove(key);
    }

    pub fn clear_args(&mut self)
        ensures
            final(self).wf(),
            forall|k: Seq<char>| final(self).args.spec_get(k) == None::<Seq<char>>,
            final(self).template == old(self).template,
            final(self).owner == old(self).owner,
    {
        self.args.clear();
    }

    pub fn get_arg(&self, key: &str) -> (r: Option<&String>)
        requires
            self.wf(),
        ensures
            match r {
                Some(v) => self.args.spec_get(key@) == Some(v@),
                None => self.args.spec_get(key@) == None::<Seq<char>>,
            },
    {
        self.args.get(key)
    }

    pub fn get_all_args(&self) -> (r: &ArgMap)
        ensures
            r == self.args,
    {
        &self.args
    }

    /// The session's current frame: the template rendered against the
    /// current arguments, stamped now.  Recomputed on every mutation and at
    /// every stream join; rendering failures fall back to the raw template.
    pub fn current_frame(&self) -> (r: SvgFrame)
        ensures
            r.content@ == self.spec_frame_content(),
    {
        let rendered = crate::render::render(self.template.as_str(), &self.args);
        SvgFrame::new(rendered)
    }
}

} // verus!
