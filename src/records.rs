use vstd::prelude::*;
use vstd::string::StringExecFns;

verus! {

/// One result of a search, built by chaining setters from a title.
#[derive(Clone, Debug)]
pub struct SearchResult {
    title: String,
    context: String,
    extra_info: String,
}

impl SearchResult {
    pub closed spec fn spec_title(&self) -> Seq<char> {
        self.title@
    }

    pub closed spec fn spec_context(&self) -> Seq<char> {
        self.context@
    }

    pub closed spec fn spec_extra_info(&self) -> Seq<char> {
        self.extra_info@
    }

    pub fn new(title: &str) -> (r: Self)
        ensures
            r.spec_title() == title@,
            r.spec_context() == Seq::<char>::empty(),
            r.spec_extra_info() == Seq::<char>::empty(),
    {
        SearchResult { title: String::from_str(title), context: String::new(), extra_info: String::new() }
    }

    pub fn set_title(self, title: &str) -> (r: Self)
        ensures
            r.spec_title() == title@,
            r.spec_context() == self.spec_context(),
            r.spec_extra_info() == self.spec_extra_info(),
    {
        SearchResult { title: String::from_str(title), ..self }
    }

    pub fn set_context(self, context: &str) -> (r: Self)
        ensures
            r.spec_title() == self.spec_title(),
            r.spec_context() == context@,
            r.spec_extra_info() == self.spec_extra_info(),
    {
        SearchResult { context: String::from_str(context), ..self }
    }

    pub fn set_extra_info(self, extra_info: &str) -> (r: Self)
        ensures
            r.spec_title() == self.spec_title(),
            r.spec_context() == self.spec_context(),
            r.spec_extra_info() == extra_info@,
    {
        SearchResult { extra_info: String::from_str(extra_info), ..self }
    }

    pub fn title(&self) -> (r: &str)
        ensures
            r@ == self.spec_title(),
    {
        self.title.as_str()
    }

    pub fn context(&self) -> (r: &str)
        ensures
            r@ == self.spec_context(),
    {
        self.context.as_str()
    }

    pub fn extra_info(&self) -> (r: &str)
        ensures
            r@ == self.spec_extra_info(),
    {
        self.extra_info.as_str()
    }
}

impl PartialEq for SearchResult {
    fn eq(&self, other: &SearchResult) -> (r: bool) {
        self.title == other.title && self.context == other.context && self.extra_info
            == other.extra_info
    }
}

impl vstd::std_specs::cmp::PartialEqSpecImpl for SearchResult {
    open spec fn obeys_eq_spec() -> bool {
        true
    }

    open spec fn eq_spec(&self, other: &SearchResult) -> bool {
        self.spec_title() == other.spec_title() && self.spec_context() == other.spec_context()
            && self.spec_extra_info() == other.spec_extra_info()
    }
}

/// The identity of a loaded plugin: the base name of its library file.
#[derive(Clone, Debug)]
pub struct PluginId {
    pub filename: String,
}

impl PartialEq for PluginId {
    fn eq(&self, other: &PluginId) -> (r: bool) {
        self.filename == other.filename
    }
}

impl vstd::std_specs::cmp::PartialEqSpecImpl for PluginId {
    open spec fn obeys_eq_spec() -> bool {
        true
    }

    open spec fn eq_spec(&self, other: &PluginId) -> bool {
        self.filename@ == other.filename@
    }
}

} // verus!
