use email::backend::{
    build_backend, not_available, resolve, Backend, BackendBuilder, BackendError,
    BackendContext, BackendFeatureKind, BackendFeatureSource, FeatureDefaults, GetMessagesPlan,
    MapBackendFeature, MappedFeature, FEATURE_COUNT,
};

#[test]
fn feature_resolution() {
    assert_eq!(resolve(BackendFeatureSource::Disabled, Some(1)), None);
    assert_eq!(resolve(BackendFeatureSource::Context, Some(1)), Some(1));
    assert_eq!(resolve(BackendFeatureSource::Backend(2), Some(1)), Some(2));
    assert_eq!(resolve(BackendFeatureSource::<u8>::default(), None), None);
    assert!(matches!(BackendFeatureSource::from(3), BackendFeatureSource::Backend(3)));
}

#[test]
fn new_builder_disables_every_feature() {
    let ctx = FeatureDefaults { features: vec![Some(1u32); FEATURE_COUNT] };
    let b: BackendBuilder<&str, FeatureDefaults<u32>, u32> = BackendBuilder::new("account", ctx);
    let (account, _, built) = b.build();
    assert_eq!(account, "account");
    assert_eq!(built, vec![None; FEATURE_COUNT]);
}

#[test]
fn context_features_build_context_defaults() {
    let defaults: Vec<Option<u32>> = (0..FEATURE_COUNT as u32).map(|i| if i % 2 == 0 { Some(i) } else { None }).collect();
    let ctx = FeatureDefaults { features: defaults.clone() };
    let mut b: BackendBuilder<&str, FeatureDefaults<u32>, u32> = BackendBuilder::new("account", ctx);
    b.set_feature(BackendFeatureKind::ListFolders, BackendFeatureSource::Context);
    b.set_feature(BackendFeatureKind::GetEnvelope, BackendFeatureSource::Context);
    let (_, ctx, built) = b.build();
    assert_eq!(ctx.features, defaults);
    assert_eq!(built[BackendFeatureKind::ListFolders.index()], defaults[BackendFeatureKind::ListFolders.index()]);
    assert_eq!(built[BackendFeatureKind::GetEnvelope.index()], defaults[BackendFeatureKind::GetEnvelope.index()]);
    assert_eq!(built.iter().filter(|f| f.is_some()).count(), 0 + built[BackendFeatureKind::GetEnvelope.index()].iter().count() + built[BackendFeatureKind::ListFolders.index()].iter().count());
}

#[test]
fn disabled_builder_builds_nothing_but_given_features() {
    let ctx = FeatureDefaults { features: vec![Some(100u32); FEATURE_COUNT] };
    let b: BackendBuilder<&str, FeatureDefaults<u32>, u32> = BackendBuilder::new("account", ctx);
    assert_eq!(*b.account_config(), "account");
    let b = b
        .with_default_features_disabled()
        .with_feature(BackendFeatureKind::ListFolders, BackendFeatureSource::Backend(7))
        .with_feature(BackendFeatureKind::AddFolder, BackendFeatureSource::Context)
        .with_feature(BackendFeatureKind::SendMessage, BackendFeatureSource::Backend(1))
        .with_feature(BackendFeatureKind::SendMessage, BackendFeatureSource::Backend(9));
    let (_, _, built) = b.build();
    assert_eq!(built[BackendFeatureKind::AddFolder.index()], Some(100));
    assert_eq!(built[BackendFeatureKind::ListFolders.index()], Some(7));
    assert_eq!(built[BackendFeatureKind::SendMessage.index()], Some(9));
    assert_eq!(built[BackendFeatureKind::GetMessages.index()], None);
    assert_eq!(built.iter().filter(|f| f.is_some()).count(), 3);
}

#[test]
fn backend_features_read_after_set() {
    let mut b: Backend<(), (), &str> = Backend::new((), ());
    assert!(matches!(b.feature(BackendFeatureKind::AddFlags), Err(BackendError::AddFlagsNotAvailableError)));
    b.set_feature(BackendFeatureKind::AddFlags, Some("add flags"));
    assert_eq!(b.feature(BackendFeatureKind::AddFlags).ok(), Some(&"add flags"));
    assert!(b.feature(BackendFeatureKind::SetFlags).is_err());
    b.set_feature(BackendFeatureKind::AddFlags, None);
    assert!(b.feature(BackendFeatureKind::AddFlags).is_err());
}

#[test]
fn messages_plan() {
    let mut b: Backend<(), (), u8> = Backend::new((), ());
    assert!(matches!(b.get_messages_plan(), Err(BackendError::PeekMessagesNotAvailableError)));
    b.set_feature(BackendFeatureKind::PeekMessages, Some(1));
    assert!(matches!(b.get_messages_plan(), Err(BackendError::PeekMessagesNotAvailableError)));
    b.set_feature(BackendFeatureKind::AddFlags, Some(2));
    assert_eq!(b.get_messages_plan().ok(), Some(GetMessagesPlan::PeekThenFlag));
    b.set_feature(BackendFeatureKind::GetMessages, Some(3));
    assert_eq!(b.get_messages_plan().ok(), Some(GetMessagesPlan::Direct));
}

#[test]
fn backend_from_builders() {
    let double = |c: &u32| Some(*c * 2);
    let mut builders: Vec<Option<_>> = (0..FEATURE_COUNT).map(|_| None).collect();
    builders[BackendFeatureKind::ListEnvelopes.index()] = Some(double);
    let b = build_backend("acc", 21u32, builders);
    assert_eq!(*b.context(), 21);
    assert_eq!(*b.account_config(), "acc");
    assert_eq!(b.feature(BackendFeatureKind::ListEnvelopes).ok(), Some(&42));
    assert!(matches!(b.feature(BackendFeatureKind::DeleteMessages), Err(BackendError::DeleteMessagesNotAvailableError)));
}

#[test]
fn not_available_errors() {
    assert!(matches!(not_available(BackendFeatureKind::SendMessage), BackendError::SendMessageNotAvailableError));
    assert_eq!(BackendFeatureKind::DeleteMessages.index(), 17);
}

#[test]
fn empty_context_builder_offers_nothing() {
    let b: BackendBuilder<&str, (), u32> = BackendBuilder::new("account", ())
        .with_feature(BackendFeatureKind::AddFolder, BackendFeatureSource::Context)
        .with_feature(BackendFeatureKind::ListFolders, BackendFeatureSource::Backend(4));
    let (_, _, built) = b.build();
    assert_eq!(built[BackendFeatureKind::AddFolder.index()], None);
    assert_eq!(built[BackendFeatureKind::ListFolders.index()], Some(4));
    let short = FeatureDefaults { features: vec![Some(1u32)] };
    let b: BackendBuilder<&str, FeatureDefaults<u32>, u32> = BackendBuilder::new("account", short)
        .with_feature(BackendFeatureKind::AddFolder, BackendFeatureSource::Context)
        .with_feature(BackendFeatureKind::ListFolders, BackendFeatureSource::Context);
    let (_, _, built) = b.build();
    assert_eq!(built[BackendFeatureKind::AddFolder.index()], Some(1));
    assert_eq!(built[BackendFeatureKind::ListFolders.index()], None);
}

#[derive(Debug, PartialEq)]
struct Ctx(u32);

impl BackendContext for Ctx {}

#[test]
fn mapped_features_run_on_the_subcontext() {
    let mapped = ().map_feature(Some(|c: &Ctx| Some(c.0 * 2)));
    let m = mapped.unwrap();
    assert_eq!(m.run(&Ctx(21)), Some(42));
    let defaults = FeatureDefaults { features: vec![Some(1u8)] };
    let none: Option<MappedFeature<fn(&Ctx) -> Option<u32>>> = defaults.map_feature(None);
    assert!(none.is_none());
}
