use perseus::errors::{BuildError, ErrorBlame, ServeError, ServerError};
use perseus::server::options::ServerOptions;
use perseus::state::delayed::Delayed;
use perseus::state::freeze::PageThawPrefs;
use perseus::state::global_state::GlobalStateCreator;
use perseus::state::rx_state::Freeze;
use perseus::stores::immutable::{parent_dir, ImmutableStore};
use perseus::stores::mutable::FsMutableStore;
use perseus::template::entity::Forever;
use perseus::template::fn_types::{BlamedGeneratorResult, GenericBlamedError, GeneratorResult};
use perseus::template::states::{PageThawPrefs as OldThawPrefs, States};

#[test]
fn thaw_preferences() {
    let inc = PageThawPrefs::Include(vec!["a".to_string()]);
    assert!(inc.should_prefer_frozen_state(&"a".to_string()));
    assert!(!inc.should_prefer_frozen_state(&"b".to_string()));
    assert!(PageThawPrefs::IncludeAll.should_prefer_frozen_state(&"b".to_string()));
    let exc = PageThawPrefs::Exclude(vec!["a".to_string()]);
    assert!(!exc.should_prefer_frozen_state(&"a".to_string()));
    assert!(exc.should_prefer_frozen_state(&"b".to_string()));
    assert!(PageThawPrefs::Exclude(vec![]).should_prefer_frozen_state(&"a".to_string()));
    let old = OldThawPrefs::Exclude(vec!["x".to_string()]);
    assert!(!old.should_use_frozen_state("x"));
    assert!(old.should_use_frozen_state("y"));
    assert!(OldThawPrefs::Include(vec!["x".to_string()]).should_use_frozen_state("x"));
}

#[test]
fn states_get_defined() {
    let mut s = States::new();
    assert!(!s.both_defined());
    assert_eq!(s.get_defined(), Ok(None));
    s.request_state = Some("r".to_string());
    assert_eq!(s.get_defined(), Ok(Some("r".to_string())));
    s.build_state = Some("b".to_string());
    assert!(s.both_defined());
    assert_eq!(s.get_defined(), Err(ServeError::BothStatesDefined));
    s.request_state = None;
    assert_eq!(s.get_defined(), Ok(Some("b".to_string())));
}

#[test]
fn generator_results_become_server_results() {
    assert_eq!(GeneratorResult::Success(5).to_server_result("f", "t".to_string()), Ok(5));
    let err = GeneratorResult::<u8>::Failure("boom".to_string()).to_server_result("build_state", "t".to_string());
    assert_eq!(
        err,
        Err(ServerError::RenderFnFailed {
            fn_name: "build_state".to_string(),
            template_name: "t".to_string(),
            blame: ErrorBlame::Server(None),
            source: "boom".to_string(),
        })
    );
    let blamed = BlamedGeneratorResult::<u8>::Failure(GenericBlamedError {
        error: "bad cookie".to_string(),
        blame: ErrorBlame::Client(Some(400)),
    })
    .to_server_result("request_state", "t".to_string());
    match blamed {
        Err(ServerError::RenderFnFailed { blame, source, .. }) => {
            assert_eq!(blame, ErrorBlame::Client(Some(400)));
            assert_eq!(source, "bad cookie");
        }
        _ => panic!("expected failure"),
    }
}

#[test]
fn delayed_take() {
    assert_eq!(Delayed::Ready(3).take(), Some(3));
    assert_eq!(Delayed::<u8>::Waiting.take(), None);
    assert_eq!(Delayed::<u8>::Error.take(), None);
    let d: Delayed<u8> = 7.into();
    assert_eq!(d.take(), Some(7));
}

#[test]
fn global_state_creator_flags_and_errors() {
    let gsc: GlobalStateCreator<u8, u16, u32> = GlobalStateCreator::new();
    assert!(!gsc.uses_build_state());
    assert!(!gsc.uses_request_state());
    assert!(!gsc.can_amalgamate_states());
    assert_eq!(
        gsc.get_build_state_fn().err(),
        Some(ServerError::BuildError(BuildError::TemplateFeatureNotEnabled {
            template_name: "GLOBAL_STATE".to_string(),
            feature_name: "build_state".to_string(),
        }))
    );
    let gsc = gsc.build_state_fn(1).request_state_fn(2);
    assert!(gsc.uses_build_state());
    assert!(gsc.uses_request_state());
    assert!(!gsc.can_amalgamate_states());
    assert_eq!(gsc.get_build_state_fn(), Ok(&1));
    assert_eq!(gsc.get_request_state_fn(), Ok(&2));
    let gsc = gsc.amalgamate_states_fn(3);
    assert_eq!(gsc.get_amalgamate_states_fn(), Ok(&3));
}

#[test]
fn stores_paths() {
    let s = ImmutableStore::new("dist//".to_string());
    assert_eq!(s.get_path(), "dist");
    assert_eq!(ImmutableStore::new("/dist/".to_string()).get_path(), "dist");
    assert_eq!(ImmutableStore::new("//x".to_string()).get_path(), "/x");
    assert_eq!(s.asset_path("static/a.html"), "dist/static/a.html");
    assert_eq!(parent_dir("dist/static/a.html"), "dist/static");
    assert_eq!(parent_dir("a.html"), "");
    assert_eq!(parent_dir("/a"), "");
    let m = FsMutableStore::new("dist/mutable".to_string());
    assert_eq!(m.asset_path("x.json"), "dist/mutable/x.json");
}

#[test]
fn server_options_default() {
    let o = ServerOptions::default();
    assert_eq!(o.js_bundle, "dist/pkg/perseus_engine.js");
    assert_eq!(o.wasm_bundle, "dist/pkg/perseus_engine_bg.wasm");
    assert_eq!(o.wasm_js_bundle, "dist/pkg/perseus_engine_bg.wasm.js");
    assert_eq!(o.snippets, "dist/pkg/snippets");
}

#[test]
fn forever_derefs_either_way() {
    static FIVE: u8 = 5;
    let a: Forever<u8> = Forever::Owned(4);
    let b: Forever<u8> = Forever::StaticRef(&FIVE);
    assert_eq!(*a, 4);
    assert_eq!(*b, 5);
}

#[test]
fn empty_global_state_freezes_to_null() {
    assert_eq!(Option::<()>::None.freeze(), "null");
}
