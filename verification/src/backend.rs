//! Backend composition: where each backend feature comes from, how a
//! builder resolves its features against the defaults of its context,
//! and which feature a backend can run.

use vstd::prelude::*;

verus! {

/// The number of backend features.
pub const FEATURE_COUNT: usize = 18;

/// A backend feature: an action such as adding a folder, listing
/// envelopes or sending a message.
#[derive(Debug, Clone, Copy, PartialEq, Eq, Structural)]
pub enum BackendFeatureKind {
    AddFolder,
    ListFolders,
    ExpungeFolder,
    PurgeFolder,
    DeleteFolder,
    ListEnvelopes,
    WatchEnvelopes,
    GetEnvelope,
    AddFlags,
    SetFlags,
    RemoveFlags,
    AddMessage,
    SendMessage,
    PeekMessages,
    GetMessages,
    CopyMessages,
    MoveMessages,
    DeleteMessages,
}

/// The position of a feature among all features.
pub open spec fn kind_index(kind: BackendFeatureKind) -> int {
    match kind {
        BackendFeatureKind::AddFolder => 0,
        BackendFeatureKind::ListFolders => 1,
        BackendFeatureKind::ExpungeFolder => 2,
        BackendFeatureKind::PurgeFolder => 3,
        BackendFeatureKind::DeleteFolder => 4,
        BackendFeatureKind::ListEnvelopes => 5,
        BackendFeatureKind::WatchEnvelopes => 6,
        BackendFeatureKind::GetEnvelope => 7,
        BackendFeatureKind::AddFlags => 8,
        BackendFeatureKind::SetFlags => 9,
        BackendFeatureKind::RemoveFlags => 10,
        BackendFeatureKind::AddMessage => 11,
        BackendFeatureKind::SendMessage => 12,
        BackendFeatureKind::PeekMessages => 13,
        BackendFeatureKind::GetMessages => 14,
        BackendFeatureKind::CopyMessages => 15,
        BackendFeatureKind::MoveMessages => 16,
        BackendFeatureKind::DeleteMessages => 17,
    }
}

impl BackendFeatureKind {
    /// The position of the feature among all features.
    pub fn index(&self) -> (i: usize)
        ensures
            i == kind_index(*self),
            i < FEATURE_COUNT,
    {
        match self {
            BackendFeatureKind::AddFolder => 0,
            BackendFeatureKind::ListFolders => 1,
            BackendFeatureKind::ExpungeFolder => 2,
            BackendFeatureKind::PurgeFolder => 3,
            BackendFeatureKind::DeleteFolder => 4,
            BackendFeatureKind::ListEnvelopes => 5,
            BackendFeatureKind::WatchEnvelopes => 6,
            BackendFeatureKind::GetEnvelope => 7,
            BackendFeatureKind::AddFlags => 8,
            BackendFeatureKind::SetFlags => 9,
            BackendFeatureKind::RemoveFlags => 10,
            BackendFeatureKind::AddMessage => 11,
            BackendFeatureKind::SendMessage => 12,
            BackendFeatureKind::PeekMessages => 13,
            BackendFeatureKind::GetMessages => 14,
            BackendFeatureKind::CopyMessages => 15,
            BackendFeatureKind::MoveMessages => 16,
            BackendFeatureKind::DeleteMessages => 17,
        }
    }
}

/// The feature at a position among all features.
pub open spec fn kind_at(i: int) -> BackendFeatureKind {
    if i == 0 {
        BackendFeatureKind::AddFolder
    } else if i == 1 {
        BackendFeatureKind::ListFolders
    } else if i == 2 {
        BackendFeatureKind::ExpungeFolder
    } else if i == 3 {
        BackendFeatureKind::PurgeFolder
    } else if i == 4 {
        BackendFeatureKind::DeleteFolder
    } else if i == 5 {
        BackendFeatureKind::ListEnvelopes
    } else if i == 6 {
        BackendFeatureKind::WatchEnvelopes
    } else if i == 7 {
        BackendFeatureKind::GetEnvelope
    } else if i == 8 {
        BackendFeatureKind::AddFlags
    } else if i == 9 {
        BackendFeatureKind::SetFlags
    } else if i == 10 {
        BackendFeatureKind::RemoveFlags
    } else if i == 11 {
        BackendFeatureKind::AddMessage
    } else if i == 12 {
        BackendFeatureKind::SendMessage
    } else if i == 13 {
        BackendFeatureKind::PeekMessages
    } else if i == 14 {
        BackendFeatureKind::GetMessages
    } else if i == 15 {
        BackendFeatureKind::CopyMessages
    } else if i == 16 {
        BackendFeatureKind::MoveMessages
    } else {
        BackendFeatureKind::DeleteMessages
    }
}

/// The feature at a position among all features.
pub fn kind_at_index(i: usize) -> (k: BackendFeatureKind)
    requires
        i < FEATURE_COUNT,
    ensures
        k == kind_at(i as int),
        kind_index(k) == i,
{
    match i {
        0 => BackendFeatureKind::AddFolder,
        1 => BackendFeatureKind::ListFolders,
        2 => BackendFeatureKind::ExpungeFolder,
        3 => BackendFeatureKind::PurgeFolder,
        4 => BackendFeatureKind::DeleteFolder,
        5 => BackendFeatureKind::ListEnvelopes,
        6 => BackendFeatureKind::WatchEnvelopes,
        7 => BackendFeatureKind::GetEnvelope,
        8 => BackendFeatureKind::AddFlags,
        9 => BackendFeatureKind::SetFlags,
        10 => BackendFeatureKind::RemoveFlags,
        11 => BackendFeatureKind::AddMessage,
        12 => BackendFeatureKind::SendMessage,
        13 => BackendFeatureKind::PeekMessages,
        14 => BackendFeatureKind::GetMessages,
        15 => BackendFeatureKind::CopyMessages,
        16 => BackendFeatureKind::MoveMessages,
        _ => BackendFeatureKind::DeleteMessages,
    }
}

/// A builder of backend contexts: for each feature, the feature it
/// offers by default, which a backend builder takes for the features it
/// sources from the context.
pub trait BackendContextBuilder<F> {
    /// The feature offered by default for a kind.
    spec fn default_feature(&self, kind: BackendFeatureKind) -> Option<F>;

    /// The feature offered by default for a kind.
    fn feature(&self, kind: BackendFeatureKind) -> (r: Option<F>)
        ensures
            r == self.default_feature(kind);
}

/// A context builder that offers no feature.
impl<F> BackendContextBuilder<F> for () {
    open spec fn default_feature(&self, kind: BackendFeatureKind) -> Option<F> {
        None
    }

    fn feature(&self, kind: BackendFeatureKind) -> (r: Option<F>) {
        None
    }
}

/// A context builder given by the feature it offers for each kind, in
/// the order of the features; none past the end.
#[derive(Debug)]
pub struct FeatureDefaults<F> {
    pub features: Vec<Option<F>>,
}

impl<F: Copy> BackendContextBuilder<F> for FeatureDefaults<F> {
    open spec fn default_feature(&self, kind: BackendFeatureKind) -> Option<F> {
        if kind_index(kind) < self.features@.len() {
            self.features@[kind_index(kind)]
        } else {
            None
        }
    }

    fn feature(&self, kind: BackendFeatureKind) -> (r: Option<F>) {
        let i = kind.index();
        if i < self.features.len() {
            self.features[i]
        } else {
            None
        }
    }
}

/// The defaults of a context builder, in the order of the features.
pub open spec fn context_defaults_of<F, B: BackendContextBuilder<F>>(b: B) -> Seq<Option<F>> {
    Seq::new(FEATURE_COUNT as nat, |i: int| b.default_feature(kind_at(i)))
}

/// Where a backend feature is taken from.
#[derive(Debug)]
pub enum BackendFeatureSource<F> {
    /// The feature is disabled.
    Disabled,
    /// The feature is taken from the context builder.
    Context,
    /// The feature is taken from the backend builder, the given one.
    Backend(F),
}

impl<F> BackendFeatureSource<F> {
    /// The source of a feature given by the backend builder.
    pub fn from(f: F) -> (s: Self)
        ensures
            s == BackendFeatureSource::Backend(f),
    {
        BackendFeatureSource::Backend(f)
    }

    /// The default source: the context builder.
    pub fn default() -> (s: Self)
        ensures
            s == BackendFeatureSource::<F>::Context,
    {
        BackendFeatureSource::Context
    }
}

impl<F: Clone> BackendFeatureSource<F> {
    /// A copy of the source; a given feature is cloned.
    pub fn clone(&self) -> (s: Self)
        ensures
            match (*self, s) {
                (BackendFeatureSource::Disabled, BackendFeatureSource::Disabled) => true,
                (BackendFeatureSource::Context, BackendFeatureSource::Context) => true,
                (BackendFeatureSource::Backend(f), BackendFeatureSource::Backend(g)) => cloned::<F>(f, g),
                _ => false,
            },
    {
        match self {
            BackendFeatureSource::Disabled => BackendFeatureSource::Disabled,
            BackendFeatureSource::Context => BackendFeatureSource::Context,
            BackendFeatureSource::Backend(f) => BackendFeatureSource::Backend(f.clone()),
        }
    }
}

/// The feature a source resolves to, given the default feature of the
/// context builder.
pub open spec fn resolve_spec<F>(source: BackendFeatureSource<F>, context_default: Option<F>) -> Option<F> {
    match source {
        BackendFeatureSource::Disabled => None,
        BackendFeatureSource::Context => context_default,
        BackendFeatureSource::Backend(f) => Some(f),
    }
}

/// Resolves a source against the default feature of the context
/// builder.
pub fn resolve<F>(source: BackendFeatureSource<F>, context_default: Option<F>) -> (r: Option<F>)
    ensures
        r == resolve_spec(source, context_default),
{
    match source {
        BackendFeatureSource::Disabled => None,
        BackendFeatureSource::Context => context_default,
        BackendFeatureSource::Backend(f) => Some(f),
    }
}

/// The backend builder: a context builder and, for each feature, the
/// source it is taken from.
pub struct BackendBuilder<A, B, F> {
    account_config: A,
    ctx_builder: B,
    sources: Vec<BackendFeatureSource<F>>,
}

impl<A, B, F> View for BackendBuilder<A, B, F> {
    type V = Seq<BackendFeatureSource<F>>;

    closed spec fn view(&self) -> Seq<BackendFeatureSource<F>> {
        self.sources@
    }
}

impl<A, B, F> BackendBuilder<A, B, F> {
    /// The account configuration of the builder.
    pub closed spec fn config(self) -> A {
        self.account_config
    }

    /// The backend context builder of the builder.
    pub closed spec fn context_builder(self) -> B {
        self.ctx_builder
    }

    /// The account configuration.
    pub fn account_config(&self) -> (a: &A)
        ensures
            *a == self.config(),
    {
        &self.account_config
    }

    /// The backend context builder.
    pub fn ctx_builder(&self) -> (b: &B)
        ensures
            *b == self.context_builder(),
    {
        &self.ctx_builder
    }

    /// The source of the given feature.
    pub open spec fn source_of(self, kind: BackendFeatureKind) -> BackendFeatureSource<F> {
        self@[kind_index(kind)]
    }

    /// Builds a new backend builder using the given backend context
    /// builder: all features are disabled by default.
    pub fn new(account_config: A, ctx_builder: B) -> (b: Self)
        ensures
            b@.len() == FEATURE_COUNT,
            forall|i: int| 0 <= i < FEATURE_COUNT ==> b@[i] == BackendFeatureSource::<F>::Disabled,
            b.config() == account_config,
            b.context_builder() == ctx_builder,
    {
        let mut sources: Vec<BackendFeatureSource<F>> = Vec::new();
        let mut i: usize = 0;
        while i < FEATURE_COUNT
            invariant
                i <= FEATURE_COUNT,
                sources@.len() == i,
                forall|j: int| 0 <= j < i ==> sources@[j] == BackendFeatureSource::<F>::Disabled,
            decreases FEATURE_COUNT - i,
        {
            sources.push(BackendFeatureSource::Disabled);
            i += 1;
        }
        BackendBuilder { account_config, ctx_builder, sources }
    }

    /// Disables every feature.
    pub fn with_default_features_disabled(self) -> (b: Self)
        ensures
            b@.len() == FEATURE_COUNT,
            forall|i: int| 0 <= i < FEATURE_COUNT ==> b@[i] == BackendFeatureSource::<F>::Disabled,
            b.config() == self.config(),
            b.context_builder() == self.context_builder(),
    {
        let mut sources: Vec<BackendFeatureSource<F>> = Vec::new();
        let mut i: usize = 0;
        while i < FEATURE_COUNT
            invariant
                i <= FEATURE_COUNT,
                sources@.len() == i,
                forall|j: int| 0 <= j < i ==> sources@[j] == BackendFeatureSource::<F>::Disabled,
            decreases FEATURE_COUNT - i,
        {
            sources.push(BackendFeatureSource::Disabled);
            i += 1;
        }
        BackendBuilder { account_config: self.account_config, ctx_builder: self.ctx_builder, sources }
    }

    /// Sets the source of the given feature.
    pub fn set_feature(&mut self, kind: BackendFeatureKind, source: BackendFeatureSource<F>)
        requires
            old(self)@.len() == FEATURE_COUNT,
        ensures
            final(self)@ == old(self)@.update(kind_index(kind), source),
            final(self)@.len() == FEATURE_COUNT,
            final(self).config() == old(self).config(),
            final(self).context_builder() == old(self).context_builder(),
    {
        let i = kind.index();
        self.sources.set(i, source);
    }

    /// Sets the source of the given feature, following the builder
    /// pattern.
    pub fn with_feature(self, kind: BackendFeatureKind, source: BackendFeatureSource<F>) -> (b: Self)
        requires
            self@.len() == FEATURE_COUNT,
        ensures
            b@ == self@.update(kind_index(kind), source),
            b@.len() == FEATURE_COUNT,
            b.config() == self.config(),
            b.context_builder() == self.context_builder(),
    {
        let mut b = self;
        b.set_feature(kind, source);
        b
    }

    /// The defaults of the context builder, in the order of the features.
    pub fn context_defaults(&self) -> (v: Vec<Option<F>>)
        where B: BackendContextBuilder<F>,
        ensures
            v@ == context_defaults_of(self.context_builder()),
    {
        let mut v: Vec<Option<F>> = Vec::new();
        let mut i: usize = 0;
        while i < FEATURE_COUNT
            invariant
                i <= FEATURE_COUNT,
                v@ == context_defaults_of(self.context_builder()).take(i as int),
            decreases FEATURE_COUNT - i,
        {
            let kind = kind_at_index(i);
            let f = self.ctx_builder.feature(kind);
            v.push(f);
            assert(v@ =~= context_defaults_of(self.context_builder()).take(i + 1));
            i += 1;
        }
        assert(v@ =~= context_defaults_of(self.context_builder()));
        v
    }

    /// Resolves every feature against the default that the context
    /// builder offers for it: a disabled feature resolves to nothing, a
    /// context one to the context's default, a given one to itself. The
    /// account configuration and the context builder come back with the
    /// resolved features, to build the backend with.
    pub fn build(self) -> (res: (A, B, Vec<Option<F>>))
        where B: BackendContextBuilder<F>,
        requires
            self@.len() == FEATURE_COUNT,
        ensures
            res.0 == self.config(),
            res.1 == self.context_builder(),
            res.2@.len() == FEATURE_COUNT,
            forall|i: int| 0 <= i < FEATURE_COUNT
                ==> #[trigger] res.2@[i] == resolve_spec(self@[i], self.context_builder().default_feature(kind_at(i))),
    {
        let context_defaults = self.context_defaults();
        let ghost cb = self.context_builder();
        let BackendBuilder { account_config, ctx_builder, sources } = self;
        let mut sources = sources;
        let mut defaults = context_defaults;
        let ghost s0 = sources@;
        let ghost d0 = defaults@;
        let mut rev: Vec<Option<F>> = Vec::new();
        while sources.len() > 0
            invariant
                sources@.len() == defaults@.len(),
                sources@.len() + rev@.len() == FEATURE_COUNT,
                s0.len() == FEATURE_COUNT,
                d0.len() == FEATURE_COUNT,
                sources@ == s0.take(sources@.len() as int),
                defaults@ == d0.take(defaults@.len() as int),
                forall|k: int| 0 <= k < rev@.len()
                    ==> #[trigger] rev@[k] == resolve_spec(s0[FEATURE_COUNT - 1 - k], d0[FEATURE_COUNT - 1 - k]),
            decreases sources@.len(),
        {
            let s = sources.pop().unwrap();
            let d = defaults.pop().unwrap();
            rev.push(resolve(s, d));
        }
        let mut r: Vec<Option<F>> = Vec::new();
        while rev.len() > 0
            invariant
                rev@.len() + r@.len() == FEATURE_COUNT,
                forall|k: int| 0 <= k < rev@.len()
                    ==> #[trigger] rev@[k] == resolve_spec(s0[FEATURE_COUNT - 1 - k], d0[FEATURE_COUNT - 1 - k]),
                forall|k: int| 0 <= k < r@.len()
                    ==> #[trigger] r@[k] == resolve_spec(s0[k], d0[k]),
            decreases rev@.len(),
        {
            let x = rev.pop().unwrap();
            r.push(x);
        }
        assert(forall|i: int| 0 <= i < FEATURE_COUNT ==> d0[i] == cb.default_feature(kind_at(i)));
        (account_config, ctx_builder, r)
    }
}

/// Errors related to backend features.
#[derive(Debug, Clone, Copy, PartialEq, Eq, Structural)]
pub enum BackendError {
    BuildUndefinedBackendError,
    AddFolderNotAvailableError,
    ListFoldersNotAvailableError,
    ExpungeFolderNotAvailableError,
    PurgeFolderNotAvailableError,
    DeleteFolderNotAvailableError,
    ListEnvelopesNotAvailableError,
    WatchEnvelopesNotAvailableError,
    GetEnvelopeNotAvailableError,
    AddFlagsNotAvailableError,
    SetFlagsNotAvailableError,
    RemoveFlagsNotAvailableError,
    AddMessageNotAvailableError,
    SendMessageNotAvailableError,
    PeekMessagesNotAvailableError,
    GetMessagesNotAvailableError,
    CopyMessagesNotAvailableError,
    MoveMessagesNotAvailableError,
    DeleteMessagesNotAvailableError,
}

/// The error reported when a feature is not available.
pub open spec fn not_available_spec(kind: BackendFeatureKind) -> BackendError {
    match kind {
        BackendFeatureKind::AddFolder => BackendError::AddFolderNotAvailableError,
        BackendFeatureKind::ListFolders => BackendError::ListFoldersNotAvailableError,
        BackendFeatureKind::ExpungeFolder => BackendError::ExpungeFolderNotAvailableError,
        BackendFeatureKind::PurgeFolder => BackendError::PurgeFolderNotAvailableError,
        BackendFeatureKind::DeleteFolder => BackendError::DeleteFolderNotAvailableError,
        BackendFeatureKind::ListEnvelopes => BackendError::ListEnvelopesNotAvailableError,
        BackendFeatureKind::WatchEnvelopes => BackendError::WatchEnvelopesNotAvailableError,
        BackendFeatureKind::GetEnvelope => BackendError::GetEnvelopeNotAvailableError,
        BackendFeatureKind::AddFlags => BackendError::AddFlagsNotAvailableError,
        BackendFeatureKind::SetFlags => BackendError::SetFlagsNotAvailableError,
        BackendFeatureKind::RemoveFlags => BackendError::RemoveFlagsNotAvailableError,
        BackendFeatureKind::AddMessage => BackendError::AddMessageNotAvailableError,
        BackendFeatureKind::SendMessage => BackendError::SendMessageNotAvailableError,
        BackendFeatureKind::PeekMessages => BackendError::PeekMessagesNotAvailableError,
        BackendFeatureKind::GetMessages => BackendError::GetMessagesNotAvailableError,
        BackendFeatureKind::CopyMessages => BackendError::CopyMessagesNotAvailableError,
        BackendFeatureKind::MoveMessages => BackendError::MoveMessagesNotAvailableError,
        BackendFeatureKind::DeleteMessages => BackendError::DeleteMessagesNotAvailableError,
    }
}

/// The error reported when a feature is not available.
pub fn not_available(kind: BackendFeatureKind) -> (e: BackendError)
    ensures
        e == not_available_spec(kind),
{
    match kind {
        BackendFeatureKind::AddFolder => BackendError::AddFolderNotAvailableError,
        BackendFeatureKind::ListFolders => BackendError::ListFoldersNotAvailableError,
        BackendFeatureKind::ExpungeFolder => BackendError::ExpungeFolderNotAvailableError,
        BackendFeatureKind::PurgeFolder => BackendError::PurgeFolderNotAvailableError,
        BackendFeatureKind::DeleteFolder => BackendError::DeleteFolderNotAvailableError,
        BackendFeatureKind::ListEnvelopes => BackendError::ListEnvelopesNotAvailableError,
        BackendFeatureKind::WatchEnvelopes => BackendError::WatchEnvelopesNotAvailableError,
        BackendFeatureKind::GetEnvelope => BackendError::GetEnvelopeNotAvailableError,
        BackendFeatureKind::AddFlags => BackendError::AddFlagsNotAvailableError,
        BackendFeatureKind::SetFlags => BackendError::SetFlagsNotAvailableError,
        BackendFeatureKind::RemoveFlags => BackendError::RemoveFlagsNotAvailableError,
        BackendFeatureKind::AddMessage => BackendError::AddMessageNotAvailableError,
        BackendFeatureKind::SendMessage => BackendError::SendMessageNotAvailableError,
        BackendFeatureKind::PeekMessages => BackendError::PeekMessagesNotAvailableError,
        BackendFeatureKind::GetMessages => BackendError::GetMessagesNotAvailableError,
        BackendFeatureKind::CopyMessages => BackendError::CopyMessagesNotAvailableError,
        BackendFeatureKind::MoveMessages => BackendError::MoveMessagesNotAvailableError,
        BackendFeatureKind::DeleteMessages => BackendError::DeleteMessagesNotAvailableError,
    }
}

/// The backend: an account configuration, a context, and the features
/// it can run.
pub struct Backend<A, C, G> {
    account_config: A,
    context: C,
    features: Vec<Option<G>>,
}

impl<A, C, G> View for Backend<A, C, G> {
    type V = Seq<Option<G>>;

    closed spec fn view(&self) -> Seq<Option<G>> {
        self.features@
    }
}

/// How messages are got.
#[derive(Debug, Clone, Copy, PartialEq, Eq, Structural)]
pub enum GetMessagesPlan {
    /// With the get messages feature.
    Direct,
    /// By peeking at the messages, then adding the seen flag.
    PeekThenFlag,
}

impl<A, C, G> Backend<A, C, G> {
    /// The account configuration of the backend.
    pub closed spec fn config(self) -> A {
        self.account_config
    }

    /// The context of the backend.
    pub closed spec fn ctx(self) -> C {
        self.context
    }

    /// A backend from an account configuration and a context: no
    /// feature is available yet.
    pub fn new(account_config: A, context: C) -> (b: Self)
        ensures
            b@.len() == FEATURE_COUNT,
            forall|i: int| 0 <= i < FEATURE_COUNT ==> b@[i] is None,
            b.config() == account_config,
            b.ctx() == context,
    {
        let mut features: Vec<Option<G>> = Vec::new();
        let mut i: usize = 0;
        while i < FEATURE_COUNT
            invariant
                i <= FEATURE_COUNT,
                features@.len() == i,
                forall|j: int| 0 <= j < i ==> features@[j] is None,
            decreases FEATURE_COUNT - i,
        {
            features.push(None);
            i += 1;
        }
        Backend { account_config, context, features }
    }

    /// The account configuration.
    pub fn account_config(&self) -> (a: &A)
        ensures
            *a == self.config(),
    {
        &self.account_config
    }

    /// The context.
    pub fn context(&self) -> (c: &C)
        ensures
            *c == self.ctx(),
    {
        &self.context
    }

    /// Sets the given feature.
    pub fn set_feature(&mut self, kind: BackendFeatureKind, feature: Option<G>)
        requires
            old(self)@.len() == FEATURE_COUNT,
        ensures
            final(self)@ == old(self)@.update(kind_index(kind), feature),
            final(self)@.len() == FEATURE_COUNT,
            final(self).config() == old(self).config(),
            final(self).ctx() == old(self).ctx(),
    {
        let i = kind.index();
        self.features.set(i, feature);
    }

    /// The given feature, or the error saying it is not available.
    pub fn feature(&self, kind: BackendFeatureKind) -> (r: Result<&G, BackendError>)
        requires
            self@.len() == FEATURE_COUNT,
        ensures
            match self@[kind_index(kind)] {
                Some(g) => r == Ok::<&G, BackendError>(&g),
                None => r == Err::<&G, BackendError>(not_available_spec(kind)),
            },
    {
        let i = kind.index();
        match &self.features[i] {
            Some(g) => Ok(g),
            None => Err(not_available(kind)),
        }
    }

    /// How messages are got: with the get messages feature when there
    /// is one, otherwise by peeking then flagging when both features
    /// are there.
    pub fn get_messages_plan(&self) -> (r: Result<GetMessagesPlan, BackendError>)
        requires
            self@.len() == FEATURE_COUNT,
        ensures
            r == (if self@[kind_index(BackendFeatureKind::GetMessages)] is Some {
                Ok(GetMessagesPlan::Direct)
            } else if self@[kind_index(BackendFeatureKind::PeekMessages)] is Some
                && self@[kind_index(BackendFeatureKind::AddFlags)] is Some {
                Ok(GetMessagesPlan::PeekThenFlag)
            } else {
                Err(BackendError::PeekMessagesNotAvailableError)
            }),
    {
        if self.features[14].is_some() {
            Ok(GetMessagesPlan::Direct)
        } else if self.features[13].is_some() && self.features[8].is_some() {
            Ok(GetMessagesPlan::PeekThenFlag)
        } else {
            Err(BackendError::PeekMessagesNotAvailableError)
        }
    }
}

/// Builds the backend of a context from the resolved feature builders:
/// each builder is applied to the context, a missing one gives no
/// feature.
pub fn build_backend<A, C, G, F: Fn(&C) -> Option<G>>(
    account_config: A,
    context: C,
    builders: Vec<Option<F>>,
) -> (b: Backend<A, C, G>)
    requires
        builders@.len() == FEATURE_COUNT,
        forall|i: int| 0 <= i < FEATURE_COUNT ==> (#[trigger] builders@[i] matches Some(f)
            ==> call_requires(f, (&context,))),
    ensures
        b@.len() == FEATURE_COUNT,
        b.config() == account_config,
        b.ctx() == context,
        forall|i: int| 0 <= i < FEATURE_COUNT ==> match #[trigger] builders@[i] {
            None => b@[i] is None,
            Some(f) => call_ensures(f, (&context,), b@[i]),
        },
{
    let mut features: Vec<Option<G>> = Vec::new();
    let mut i: usize = 0;
    while i < FEATURE_COUNT
        invariant
            i <= FEATURE_COUNT,
            builders@.len() == FEATURE_COUNT,
            features@.len() == i,
            forall|j: int| 0 <= j < FEATURE_COUNT ==> (#[trigger] builders@[j] matches Some(f)
                ==> call_requires(f, (&context,))),
            forall|j: int| 0 <= j < i ==> match #[trigger] builders@[j] {
                None => features@[j] is None,
                Some(f) => call_ensures(f, (&context,), features@[j]),
            },
        decreases FEATURE_COUNT - i,
    {
        match &builders[i] {
            None => features.push(None),
            Some(f) => {
                let g = f(&context);
                features.push(g);
            },
        }
        i += 1;
    }
    Backend { account_config, context, features }
}

/// Two different features have different positions.
pub proof fn lemma_kind_index_injective(a: BackendFeatureKind, b: BackendFeatureKind)
    ensures
        0 <= kind_index(a) < FEATURE_COUNT,
        a != b ==> kind_index(a) != kind_index(b),
{
}

/// How a feature source resolves: a disabled feature gives no feature,
/// a feature given to the backend builder overrides the context's, and
/// otherwise the context's default is taken.
pub proof fn law_feature_resolution<F>(source: BackendFeatureSource<F>, context_default: Option<F>)
    ensures
        source is Disabled ==> resolve_spec(source, context_default) is None,
        source matches BackendFeatureSource::Backend(f) ==> resolve_spec(source, context_default) == Some(f),
        source is Context ==> resolve_spec(source, context_default) == context_default,
{
}

/// A builder just made, like one with the default features disabled,
/// has every source disabled and so builds no feature at all, whatever
/// the context builder offers; a feature taken from the context builder
/// builds the context builder's default for it.
pub proof fn law_builder_defaults<F, B: BackendContextBuilder<F>>(ctx: B)
    ensures
        forall|i: int| 0 <= i < FEATURE_COUNT
            ==> #[trigger] resolve_spec(BackendFeatureSource::<F>::Context, context_defaults_of(ctx)[i])
                == ctx.default_feature(kind_at(i)),
        forall|i: int| 0 <= i < FEATURE_COUNT
            ==> #[trigger] resolve_spec(BackendFeatureSource::<F>::Disabled, context_defaults_of(ctx)[i]) is None,
{
}

/// Setting the source of a feature twice keeps the last source, and
/// setting it leaves the source of every other feature as it was.
pub proof fn law_feature_source_last_wins<F>(
    sources: Seq<BackendFeatureSource<F>>,
    kind: BackendFeatureKind,
    other: BackendFeatureKind,
    first: BackendFeatureSource<F>,
    second: BackendFeatureSource<F>,
)
    requires
        sources.len() == FEATURE_COUNT,
    ensures
        sources.update(kind_index(kind), first).update(kind_index(kind), second)
            == sources.update(kind_index(kind), second),
        other != kind ==> sources.update(kind_index(kind), first)[kind_index(other)]
            == sources[kind_index(other)],
{
    lemma_kind_index_injective(kind, other);
    assert(sources.update(kind_index(kind), first).update(kind_index(kind), second)
        =~= sources.update(kind_index(kind), second));
}

/// Reading a feature after setting it gives what was set; the other
/// features read as before.
pub proof fn law_feature_read_after_set<G>(
    features: Seq<Option<G>>,
    kind: BackendFeatureKind,
    other: BackendFeatureKind,
    feature: Option<G>,
)
    requires
        features.len() == FEATURE_COUNT,
    ensures
        features.update(kind_index(kind), feature)[kind_index(kind)] == feature,
        other != kind ==> features.update(kind_index(kind), feature)[kind_index(other)]
            == features[kind_index(other)],
{
    lemma_kind_index_injective(kind, other);
}

/// The backend context: a marker for the contexts that backend
/// features run in.
pub trait BackendContext {}

/// A context that holds a subcontext.
pub trait GetBackendSubcontext<C: BackendContext> {
    /// The subcontext held.
    spec fn subcontext(&self) -> C;

    /// The subcontext.
    fn get_subcontext(&self) -> (r: &C)
        ensures
            *r == self.subcontext();
}

/// Every context is its own subcontext.
impl<C: BackendContext> GetBackendSubcontext<C> for C {
    open spec fn subcontext(&self) -> C {
        *self
    }

    fn get_subcontext(&self) -> (r: &C) {
        self
    }
}

/// A context that may hold a subcontext.
pub trait FindBackendSubcontext<C: BackendContext> {
    /// The subcontext held, if the context holds one.
    spec fn found_subcontext(&self) -> Option<C>;

    /// The subcontext, if the context holds one.
    fn find_subcontext(&self) -> (r: Option<&C>)
        ensures
            match r {
                Some(c) => self.found_subcontext() == Some(*c),
                None => self.found_subcontext() is None,
            };
}

/// A context that holds a subcontext can always find it: the one it
/// holds.
impl<C: BackendContext, T: GetBackendSubcontext<C>> FindBackendSubcontext<C> for T {
    open spec fn found_subcontext(&self) -> Option<C> {
        Some(self.subcontext())
    }

    fn find_subcontext(&self) -> (r: Option<&C>)
        ensures
            r matches Some(c) && *c == self.subcontext(),
    {
        Some(self.get_subcontext())
    }
}

/// A feature of a subcontext, carried over to the contexts that hold
/// the subcontext.
pub struct MappedFeature<G> {
    /// The feature of the subcontext.
    pub feature: G,
}

impl<G> MappedFeature<G> {
    /// Runs the feature on the subcontext that the context holds;
    /// nothing when it holds none.
    pub fn run<S: BackendContext, C: FindBackendSubcontext<S>, X>(&self, ctx: &C) -> (r: Option<X>)
        where G: Fn(&S) -> Option<X>,
        requires
            forall|s: &S| call_requires(self.feature, (s,)),
        ensures
            match ctx.found_subcontext() {
                Some(sub) => call_ensures(self.feature, (&sub,), r),
                None => r is None,
            },
    {
        match ctx.find_subcontext() {
            Some(sub) => (self.feature)(sub),
            None => None,
        }
    }
}

/// A context builder whose context holds the contexts of other
/// builders: their features carry over to it.
pub trait MapBackendFeature {
    /// Carries a feature of a subcontext over to this builder's
    /// context; no feature stays none.
    fn map_feature<G>(&self, f: Option<G>) -> (r: Option<MappedFeature<G>>)
        ensures
            match f {
                Some(g) => r matches Some(m) && m.feature == g,
                None => r is None,
            },
    {
        match f {
            Some(g) => Some(MappedFeature { feature: g }),
            None => None,
        }
    }
}

impl MapBackendFeature for () {}

impl<F> MapBackendFeature for FeatureDefaults<F> {}

/// The Notmuch backend configuration.
#[derive(Debug, Clone, PartialEq, Eq)]
pub struct NotmuchConfig {
    /// The path of the Notmuch database.
    pub db_path: String,
}

} // verus!
