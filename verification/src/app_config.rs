//! The configuration record: which dictionaries the conversion engine is to
//! be built from, and the order in which they are opened.

use vstd::prelude::*;

verus! {

/// One dictionary file and the encoding of its text.
#[derive(Clone, Debug, PartialEq, Eq)]
pub struct DictionaryInfo {
    pub path: String,
    pub encoding: String,
}

/// What a [`DictionaryInfo`] says, with text as sequences of characters.
pub struct DictionaryInfoView {
    pub path: Seq<char>,
    pub encoding: Seq<char>,
}

impl View for DictionaryInfo {
    type V = DictionaryInfoView;

    open spec fn view(&self) -> DictionaryInfoView {
        DictionaryInfoView { path: self.path@, encoding: self.encoding@ }
    }
}

/// The entries of a list of dictionaries, each by its view.
pub open spec fn infos_view(infos: Seq<DictionaryInfo>) -> Seq<DictionaryInfoView> {
    infos.map_values(|d: DictionaryInfo| d@)
}

/// The configuration record.
#[derive(Clone, Debug, PartialEq, Eq)]
pub struct AppConfig {
    pub version: i32,
    /// Read-only dictionaries, first the one to be asked first.
    pub static_dictionary: Vec<DictionaryInfo>,
    /// Dictionaries the engine also writes to.
    pub user_dictionary: Vec<DictionaryInfo>,
}

/// What an [`AppConfig`] says.
pub struct AppConfigView {
    pub version: i32,
    pub static_dictionary: Seq<DictionaryInfoView>,
    pub user_dictionary: Seq<DictionaryInfoView>,
}

impl View for AppConfig {
    type V = AppConfigView;

    open spec fn view(&self) -> AppConfigView {
        AppConfigView {
            version: self.version,
            static_dictionary: infos_view(self.static_dictionary@),
            user_dictionary: infos_view(self.user_dictionary@),
        }
    }
}

/// The configuration that is used where none is given: two read-only
/// dictionaries in EUC-JP and one user dictionary in UTF-8.
pub open spec fn default_config() -> AppConfigView {
    AppConfigView {
        version: 0,
        static_dictionary: seq![
            DictionaryInfoView {
                path: "~/.local/share/wlcskk/dictionary/SKK-JISYO.L"@,
                encoding: "euc-jp"@,
            },
            DictionaryInfoView {
                path: "~/.local/share/wlcskk/dictionary/SKK-JISYO.propernoun"@,
                encoding: "euc-jp"@,
            },
        ],
        user_dictionary: seq![
            DictionaryInfoView {
                path: "~/.local/share/wlcskk/dictionary/user.dict"@,
                encoding: "utf-8"@,
            },
        ],
    }
}

impl Default for AppConfig {
    fn default() -> (config: AppConfig)
        ensures
            config@ == default_config(),
    {
        let mut static_dictionary: Vec<DictionaryInfo> = Vec::new();
        static_dictionary.push(
            DictionaryInfo {
                path: "~/.local/share/wlcskk/dictionary/SKK-JISYO.L".to_owned(),
                encoding: "euc-jp".to_owned(),
            },
        );
        static_dictionary.push(
            DictionaryInfo {
                path: "~/.local/share/wlcskk/dictionary/SKK-JISYO.propernoun".to_owned(),
                encoding: "euc-jp".to_owned(),
            },
        );
        let mut user_dictionary: Vec<DictionaryInfo> = Vec::new();
        user_dictionary.push(
            DictionaryInfo {
                path: "~/.local/share/wlcskk/dictionary/user.dict".to_owned(),
                encoding: "utf-8".to_owned(),
            },
        );
        let config = AppConfig { version: 0, static_dictionary, user_dictionary };
        assert(config@.static_dictionary =~= default_config().static_dictionary);
        assert(config@.user_dictionary =~= default_config().user_dictionary);
        config
    }
}

/// Where one dictionary of the engine comes from.
#[derive(Clone, Debug, PartialEq, Eq)]
pub enum DictionarySource {
    /// The dictionary without entries that is always there.
    Empty,
    /// A file the engine reads and writes.
    User { path: String, encoding: String },
    /// A file the engine only reads.
    Static { path: String, encoding: String },
}

/// What a [`DictionarySource`] says, with text as sequences of characters.
pub enum DictionarySourceView {
    Empty,
    User { path: Seq<char>, encoding: Seq<char> },
    Static { path: Seq<char>, encoding: Seq<char> },
}

impl View for DictionarySource {
    type V = DictionarySourceView;

    open spec fn view(&self) -> DictionarySourceView {
        match *self {
            DictionarySource::Empty => DictionarySourceView::Empty,
            DictionarySource::User { path, encoding } => DictionarySourceView::User {
                path: path@,
                encoding: encoding@,
            },
            DictionarySource::Static { path, encoding } => DictionarySourceView::Static {
                path: path@,
                encoding: encoding@,
            },
        }
    }
}

/// What becomes of a source after the attempt to open it.
#[derive(Clone, Copy, Debug, PartialEq, Eq, Structural)]
pub enum Opening {
    /// It opened: the engine gets it.
    Keep,
    /// It did not open and the engine can do without it.
    Skip,
    /// It did not open and the engine cannot be built without it.
    Fail,
}

impl DictionarySourceView {
    /// Whether the engine cannot be built without this source. Only the
    /// empty dictionary is required.
    pub open spec fn required(self) -> bool {
        self is Empty
    }

    /// What becomes of the source: it is kept if it opened, and left out if
    /// it did not, unless it is required.
    pub open spec fn after_opening(self, opened: bool) -> Opening {
        if opened {
            Opening::Keep
        } else if self.required() {
            Opening::Fail
        } else {
            Opening::Skip
        }
    }
}

impl DictionarySource {
    pub fn is_required(&self) -> (required: bool)
        ensures
            required == self@.required(),
    {
        match self {
            DictionarySource::Empty => true,
            _ => false,
        }
    }

    /// Says what becomes of the source, given whether it opened.
    pub fn after_opening(&self, opened: bool) -> (opening: Opening)
        ensures
            opening == self@.after_opening(opened),
    {
        if opened {
            Opening::Keep
        } else if self.is_required() {
            Opening::Fail
        } else {
            Opening::Skip
        }
    }
}

/// The sources of a list, each by its view.
pub open spec fn sources_view(sources: Seq<DictionarySource>) -> Seq<DictionarySourceView> {
    sources.map_values(|s: DictionarySource| s@)
}

/// The dictionaries to open for a configuration, in the order in which the
/// engine is to ask them: the empty one, then the user dictionaries, then the
/// read-only ones, each group in the order of the configuration.
pub open spec fn dictionary_plan(config: AppConfigView) -> Seq<DictionarySourceView> {
    seq![DictionarySourceView::Empty] + config.user_dictionary.map_values(
        |d: DictionaryInfoView| DictionarySourceView::User { path: d.path, encoding: d.encoding },
    ) + config.static_dictionary.map_values(
        |d: DictionaryInfoView| DictionarySourceView::Static { path: d.path, encoding: d.encoding },
    )
}

/// Whatever the configuration holds, the plan opens with the one required
/// source and holds one source for each dictionary of the configuration, none
/// of them required: the user dictionaries first, then the read-only ones. So
/// no file that fails to open keeps the engine from being built: it is left
/// out, and the empty dictionary is there in any case.
pub proof fn plan_starts_with_required_source(config: AppConfigView)
    ensures
        ({
            let plan = dictionary_plan(config);
            let users = config.user_dictionary.len() as int;
            &&& plan.len() == 1 + users + config.static_dictionary.len()
            &&& plan[0] == DictionarySourceView::Empty
            &&& forall|i: int| 0 <= i < plan.len() ==> (#[trigger] plan[i].required() <==> i == 0)
            &&& forall|i: int|
                0 < i < plan.len() ==> #[trigger] plan[i].after_opening(false) == Opening::Skip
            &&& forall|i: int|
                0 <= i < plan.len() ==> #[trigger] plan[i].after_opening(true) == Opening::Keep
            &&& forall|i: int|
                0 <= i < users ==> #[trigger] plan[1 + i] == (DictionarySourceView::User {
                    path: config.user_dictionary[i].path,
                    encoding: config.user_dictionary[i].encoding,
                })
            &&& forall|i: int|
                0 <= i < config.static_dictionary.len() ==> #[trigger] plan[1 + users + i]
                    == (DictionarySourceView::Static {
                    path: config.static_dictionary[i].path,
                    encoding: config.static_dictionary[i].encoding,
                })
        }),
{
}

impl AppConfig {
    /// Lists the dictionaries to open, in the order of [`dictionary_plan`].
    /// A source that cannot be opened is left out by the caller; the empty
    /// dictionary at the head needs no file, so one dictionary is always
    /// there.
    pub fn dictionary_sources(&self) -> (sources: Vec<DictionarySource>)
        ensures
            sources_view(sources@) == dictionary_plan(self@),
    {
        let mut sources: Vec<DictionarySource> = Vec::new();
        sources.push(DictionarySource::Empty);
        let users: usize = self.user_dictionary.len();
        let mut i: usize = 0;
        while i < users
            invariant
                users == self.user_dictionary@.len(),
                i <= users,
                sources@.len() == 1 + i,
                sources_view(sources@) =~= dictionary_plan(self@).subrange(0, 1 + i),
            decreases users - i,
        {
            let info = &self.user_dictionary[i];
            sources.push(
                DictionarySource::User {
                    path: info.path.clone(),
                    encoding: info.encoding.clone(),
                },
            );
            i = i + 1;
        }
        let statics: usize = self.static_dictionary.len();
        let mut j: usize = 0;
        while j < statics
            invariant
                users == self.user_dictionary@.len(),
                statics == self.static_dictionary@.len(),
                j <= statics,
                sources@.len() == 1 + users + j,
                sources_view(sources@) =~= dictionary_plan(self@).subrange(0, 1 + users + j),
            decreases statics - j,
        {
            let info = &self.static_dictionary[j];
            sources.push(
                DictionarySource::Static {
                    path: info.path.clone(),
                    encoding: info.encoding.clone(),
                },
            );
            j = j + 1;
        }
        assert(dictionary_plan(self@).subrange(0, 1 + users + statics) =~= dictionary_plan(self@));
        sources
    }
}

} // verus!
