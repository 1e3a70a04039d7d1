//! Registration of named native functions with the host.

use vstd::prelude::*;
use vstd::string::StringSliceAdditionalSpecFns;

use crate::types::terminable_bytes;

verus! {

/// What a registration context holds: the host handle (zero when absent) and
/// the terminated name buffers handed to the host, in registration order.
pub struct ContextView {
    pub handle: usize,
    pub names: Seq<Seq<u8>>,
}

impl ContextView {
    /// Whether registering `name` on this context goes ahead: the host handle
    /// is present and the name can be terminated.
    pub open spec fn accepts(self, name: Seq<u8>) -> bool {
        self.handle != 0 && !name.contains(0u8)
    }

    /// The context after registering `name`: one more terminated buffer when
    /// it is accepted, unchanged otherwise.
    pub open spec fn after_register(self, name: Seq<u8>) -> ContextView {
        if self.accepts(name) {
            ContextView { handle: self.handle, names: self.names.push(name.push(0u8)) }
        } else {
            self
        }
    }
}

/// Keeps the terminated names of registered functions alive for as long as
/// the host may read them. Each name lives in a buffer of its own, so adding
/// a name never moves the buffers handed out before it.
pub struct ModuleContext {
    handle: usize,
    names: Vec<Vec<u8>>,
}

impl View for ModuleContext {
    type V = ContextView;

    closed spec fn view(&self) -> ContextView {
        ContextView { handle: self.handle, names: self.names@.map_values(|b: Vec<u8>| b@) }
    }
}

impl ModuleContext {
    /// A context over the host handle `ctx` (zero for an absent handle),
    /// with no names registered.
    pub fn new(ctx: usize) -> (r: Self)
        ensures
            r@.handle == ctx,
            r@.names == Seq::<Seq<u8>>::empty(),
    {
        let r = ModuleContext { handle: ctx, names: Vec::new() };
        assert(r@.names =~= Seq::<Seq<u8>>::empty());
        r
    }

    /// Stores the terminated `name` and returns the index of its buffer, to
    /// be handed to the host together with the function. Nothing is stored
    /// and `None` comes back when the handle is absent or the name holds a
    /// terminator byte.
    pub fn register_fn(&mut self, name: &str) -> (r: Option<usize>)
        ensures
            final(self)@ == old(self)@.after_register(name.spec_bytes()),
            r is Some <==> old(self)@.accepts(name.spec_bytes()),
            r matches Some(k) ==> k == old(self)@.names.len(),
    {
        if self.handle == 0 {
            return None;
        }
        match terminable_bytes(name) {
            None => None,
            Some(mut b) => {
                b.push(0u8);
                let k = self.names.len();
                let ghost before = self.names@;
                self.names.push(b);
                proof {
                    assert(self.names@.map_values(|b: Vec<u8>| b@) =~= before.map_values(
                        |b: Vec<u8>| b@,
                    ).push(name.spec_bytes().push(0u8)));
                }
                Some(k)
            },
        }
    }

    /// The host handle this context was made with.
    pub fn handle(&self) -> (r: usize)
        ensures
            r == self@.handle,
    {
        self.handle
    }

    /// How many names are stored.
    pub fn name_count(&self) -> (r: usize)
        ensures
            r == self@.names.len(),
    {
        self.names.len()
    }

    /// The terminated buffer of the name stored at index `k`.
    pub fn name_entry(&self, k: usize) -> (r: &[u8])
        requires
            k < self@.names.len(),
        ensures
            r@ == self@.names[k as int],
    {
        self.names[k].as_slice()
    }
}

/// Registering two accepted names on one context adds two buffers, each
/// holding its own name and terminator, and leaves every earlier buffer,
/// the first of the two included, as it was.
pub proof fn lemma_registrations_kept(c: ContextView, a: Seq<u8>, b: Seq<u8>)
    requires
        c.accepts(a),
        c.accepts(b),
    ensures
        ({
            let c1 = c.after_register(a);
            let c2 = c1.after_register(b);
            &&& c2.names.len() == c.names.len() + 2
            &&& c2.names.subrange(0, c1.names.len() as int) == c1.names
            &&& c2.names[c.names.len() as int] == a.push(0u8)
            &&& c2.names[c.names.len() + 1int] == b.push(0u8)
        }),
{
    let c1 = c.after_register(a);
    let c2 = c1.after_register(b);
    assert(c2.names.subrange(0, c1.names.len() as int) =~= c1.names);
}

} // verus!
