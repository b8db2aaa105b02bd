use vstd::prelude::*;

verus! {

/// What a configuration holds, as mathematical values.
pub struct ConfigView<C, O> {
    pub root_path: Seq<char>,
    pub workspace_roots: Seq<Seq<char>>,
    pub capabilities: C,
    pub options: Option<O>,
}

/// The server's configuration: built once from the initialization
/// parameters, and afterwards replaced only through `update`.
/// `C` is the client's capability descriptor, `O` the decoded options.
pub struct Config<C, O> {
    root_path: String,
    workspace_roots: Vec<String>,
    capabilities: C,
    options: Option<O>,
}

impl<C, O> View for Config<C, O> {
    type V = ConfigView<C, O>;

    closed spec fn view(&self) -> ConfigView<C, O> {
        ConfigView {
            root_path: self.root_path@,
            workspace_roots: self.workspace_roots@.map_values(|s: String| s@),
            capabilities: self.capabilities,
            options: self.options,
        }
    }
}

/// The workspace roots that a configuration starts with: those supplied, or
/// the root path alone where none were.
pub open spec fn initial_roots(root_path: Seq<char>, supplied: Seq<Seq<char>>) -> Seq<Seq<char>> {
    if supplied.len() == 0 {
        seq![root_path]
    } else {
        supplied
    }
}

/// The configuration after an update whose options decoded to `decoded`:
/// the options are replaced on success, and nothing changes on failure.
pub open spec fn updated<C, O, E>(c: ConfigView<C, O>, decoded: Result<O, E>) -> ConfigView<C, O> {
    match decoded {
        Ok(o) => ConfigView { options: Some(o), ..c },
        Err(_) => c,
    }
}

impl<C, O> Config<C, O> {
    /// There is at least one workspace root.
    pub open spec fn wf(&self) -> bool {
        self@.workspace_roots.len() > 0
    }

    pub fn new(root_path: String, capabilities: C, workspace_roots: Vec<String>) -> (r: Self)
        ensures
            r.wf(),
            r@ == (ConfigView {
                root_path: root_path@,
                workspace_roots: initial_roots(
                    root_path@,
                    workspace_roots@.map_values(|s: String| s@),
                ),
                capabilities,
                options: None::<O>,
            }),
    {
        let ghost supplied = workspace_roots@.map_values(|s: String| s@);
        let roots = if workspace_roots.len() == 0 {
            let mut v: Vec<String> = Vec::new();
            v.push(root_path.clone());
            assert(v@.map_values(|s: String| s@) =~= seq![root_path@]);
            v
        } else {
            workspace_roots
        };
        let r = Config { root_path, workspace_roots: roots, capabilities, options: None };
        assert(r@.workspace_roots =~= initial_roots(root_path@, supplied));
        r
    }

    /// Replaces the options with what the client's settings decoded to, or,
    /// where they failed to decode, leaves the whole configuration as it was
    /// and hands the error back.
    pub fn update<E>(&mut self, decoded: Result<O, E>) -> (r: Result<(), E>)
        requires
            old(self).wf(),
        ensures
            final(self).wf(),
            final(self)@ == updated(old(self)@, decoded),
            decoded is Err ==> *final(self) == *old(self),
            r is Ok <==> decoded is Ok,
            r is Err ==> r == Err::<(), E>(decoded->Err_0),
    {
        match decoded {
            Ok(o) => {
                self.options = Some(o);
                Ok(())
            },
            Err(e) => Err(e),
        }
    }

    pub fn root_path(&self) -> (r: &String)
        ensures
            r@ == self@.root_path,
    {
        &self.root_path
    }

    pub fn workspace_roots(&self) -> (r: &Vec<String>)
        ensures
            r@.map_values(|s: String| s@) == self@.workspace_roots,
    {
        &self.workspace_roots
    }

    pub fn capabilities(&self) -> (r: &C)
        ensures
            *r == self@.capabilities,
    {
        &self.capabilities
    }

    pub fn options(&self) -> (r: Option<&O>)
        ensures
            match r {
                Some(o) => self@.options == Some(*o),
                None => self@.options is None,
            },
    {
        match &self.options {
            Some(o) => Some(o),
            None => None,
        }
    }
}

/// A failed update leaves every field that could be read before it as it was.
pub proof fn failed_update_changes_nothing<C, O, E>(c: Config<C, O>, e: E)
    ensures
        updated(c@, Err::<O, E>(e)) == c@,
{
}

} // verus!
