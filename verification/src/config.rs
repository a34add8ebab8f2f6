//! Per-session webview configuration.
//!
//! These components describe how a webview session is created; the embedding
//! host reads them when it builds the native webview.  The initialization
//! scripts are the one piece with behaviour of its own: they are joined into a
//! single script evaluated when a page loads.

use vstd::prelude::*;
use vstd::string::*;

verus! {

/// The initialization scripts for a webview session, run in order when a page
/// loads.  When these scripts are executed depends on the webview engine.
pub struct InitializationScripts {
    scripts: Vec<String>,
}

/// The scripts of a list joined with `;`.
pub open spec fn spec_join_scripts(s: Seq<Seq<char>>) -> Seq<char>
    decreases s.len(),
{
    if s.len() == 0 {
        Seq::empty()
    } else if s.len() == 1 {
        s[0]
    } else {
        spec_join_scripts(s.drop_last()) + ";"@ + s.last()
    }
}

impl View for InitializationScripts {
    type V = Seq<Seq<char>>;

    closed spec fn view(&self) -> Seq<Seq<char>> {
        self.scripts.deep_view()
    }
}

impl InitializationScripts {
    /// Creates the initialization scripts from a list.
    pub fn new(scripts: Vec<String>) -> (r: Self)
        ensures
            r@ == scripts.deep_view(),
    {
        InitializationScripts { scripts }
    }

    /// Appends one initialization script.
    pub fn append(&mut self, script: String)
        ensures
            final(self)@ == old(self)@.push(script@),
    {
        self.scripts.push(script);
        proof {
            assert(final(self)@ =~= old(self)@.push(script@));
        }
    }

    /// Joins the initialization scripts into one script, separated by `;`.
    pub fn to_scripts(&self) -> (r: String)
        ensures
            r@ == spec_join_scripts(self@),
    {
        let mut out = String::new();
        let mut i: usize = 0;
        while i < self.scripts.len()
            invariant
                i <= self.scripts.len(),
                self@ == self.scripts.deep_view(),
                self@.len() == self.scripts@.len(),
                forall|k: int| 0 <= k < self@.len() ==> self@[k] == self.scripts@[k]@,
                out@ == spec_join_scripts(self@.subrange(0, i as int)),
            decreases self.scripts.len() - i,
        {
            if i > 0 {
                out.append(";");
            }
            out.append(self.scripts[i].as_str());
            proof {
                let pre = self@.subrange(0, i as int);
                let cur = self@.subrange(0, i + 1);
                assert(cur.drop_last() =~= pre);
                assert(cur.last() == self@[i as int]);
                assert(out@ =~= spec_join_scripts(cur));
            }
            i += 1;
        }
        proof {
            assert(self@.subrange(0, self@.len() as int) =~= self@);
        }
        out
    }
}

impl Default for InitializationScripts {
    /// No initialization scripts.
    fn default() -> (r: Self)
        ensures
            r@ == Seq::<Seq<char>>::empty(),
    {
        InitializationScripts { scripts: Vec::new() }
    }
}

/// Whether the native webview is shown.  Defaults to visible.
#[derive(Clone, Copy, Debug, PartialEq, Eq, Structural)]
pub struct Visible(pub bool);

impl Default for Visible {
    fn default() -> (r: Self)
        ensures
            r.0 == true,
    {
        Visible(true)
    }
}

/// Whether an embedded webview may be resized by dragging its edges.
/// Defaults to resizable.
#[derive(Clone, Copy, Debug, PartialEq, Eq, Structural)]
pub struct Resizable(pub bool);

impl Default for Resizable {
    fn default() -> (r: Self)
        ensures
            r.0 == true,
    {
        Resizable(true)
    }
}

/// Whether to initialize the webview focused.  Defaults to unfocused.
#[derive(Clone, Copy, Debug, PartialEq, Eq, Structural)]
pub struct InitializeFocused(pub bool);

impl Default for InitializeFocused {
    fn default() -> (r: Self)
        ensures
            r.0 == false,
    {
        InitializeFocused(false)
    }
}

/// Whether to open the webview in incognito mode.  Defaults to off.
#[derive(Clone, Copy, Debug, PartialEq, Eq, Structural)]
pub struct Incognito(pub bool);

impl Default for Incognito {
    fn default() -> (r: Self)
        ensures
            r.0 == false,
    {
        Incognito(false)
    }
}

/// Whether the webview devtools may be used.  Defaults to off.
#[derive(Clone, Copy, Debug, PartialEq, Eq, Structural)]
pub struct UseDevtools(pub bool);

impl Default for UseDevtools {
    fn default() -> (r: Self)
        ensures
            r.0 == false,
    {
        UseDevtools(false)
    }
}

/// Whether the webview devtools are open.  Opening them also needs
/// [`UseDevtools`].  Defaults to closed.
#[derive(Clone, Copy, Debug, PartialEq, Eq, Structural)]
pub struct IsOpenDevtools(pub bool);

impl Default for IsOpenDevtools {
    fn default() -> (r: Self)
        ensures
            r.0 == false,
    {
        IsOpenDevtools(false)
    }
}

/// The configuration a webview session is created with.
pub struct WebViewBundle {
    /// [`UseDevtools`]
    pub use_devtools: UseDevtools,
    /// [`IsOpenDevtools`]
    pub is_open_devtools: IsOpenDevtools,
    /// [`Visible`]
    pub visible: Visible,
    /// [`InitializeFocused`]
    pub initialize_focused: InitializeFocused,
    /// [`Incognito`]
    pub incognito: Incognito,
    /// [`InitializationScripts`]
    pub initialization_scripts: InitializationScripts,
}

impl Default for WebViewBundle {
    fn default() -> (r: Self)
        ensures
            r.use_devtools.0 == false,
            r.is_open_devtools.0 == false,
            r.visible.0 == true,
            r.initialize_focused.0 == false,
            r.incognito.0 == false,
            r.initialization_scripts@ == Seq::<Seq<char>>::empty(),
    {
        WebViewBundle {
            use_devtools: UseDevtools::default(),
            is_open_devtools: IsOpenDevtools::default(),
            visible: Visible::default(),
            initialize_focused: InitializeFocused::default(),
            incognito: Incognito::default(),
            initialization_scripts: InitializationScripts::default(),
        }
    }
}

} // verus!
