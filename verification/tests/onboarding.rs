use majik_views::onboarding::{finish, placeholder_for, Finish, OnboardingConfig, OnboardingView, Page, ProviderInfo, Step};

fn provider(id: &str, requires_api_key: bool, user_selectable: bool) -> ProviderInfo {
    ProviderInfo {
        id: id.into(),
        display_name: format!("{id} (name)"),
        logo: format!("{id}-logo"),
        api_key_placeholder: format!("{id} key"),
        api_key_url: format!("https://{id}/keys"),
        requires_api_key,
        user_selectable,
    }
}

fn registry() -> Vec<ProviderInfo> {
    vec![provider("Mock", false, false), provider("fal.ai", true, true), provider("Replicate", true, true), provider("Local", false, true)]
}

fn view(id: &str) -> OnboardingView {
    OnboardingView::new(id.into(), &registry())
}

fn config() -> OnboardingConfig {
    OnboardingConfig { provider: "Mock".into(), completed: false }
}

#[test]
fn connect_saves_key_and_completes() {
    let mut v = view("Mock");
    v.select_provider("fal.ai".into(), &registry());
    v.set_key("  sk-test-123  ".into());
    let save = v.connect().expect("a key to store");
    assert_eq!((save.provider.as_str(), save.key.as_str()), ("fal.ai", "sk-test-123"), "key trimmed");
    let how = v.key_saved(save, Ok(())).expect("onboarding ends");
    let mut c = config();
    finish(&mut c, how);
    assert!(c.completed, "onboarding marked complete");
    assert_eq!(c.provider, "fal.ai");
}

#[test]
fn connect_with_empty_key_is_noop() {
    let mut v = view("fal.ai");
    v.set_key("   ".into());
    assert!(v.connect().is_none(), "not completed without a key");
}

#[test]
fn connect_failure_shows_status_and_does_not_complete_onboarding() {
    let mut v = view("fal.ai");
    v.set_key("sk-test-123".into());
    let save = v.connect().unwrap();
    assert!(v.key_saved(save, Err("locked".into())).is_none());
    assert_eq!(v.status.as_deref(), Some("Couldn't save key: locked"));
    assert!(v.connect().is_some());
    assert_eq!(v.status, None, "trying again clears the status");
}

#[test]
fn skip_completes_without_key() {
    let v = view("fal.ai");
    let how = v.skip();
    assert_eq!(how, Finish::Skipped { provider: "fal.ai".into() });
    let mut c = config();
    finish(&mut c, how);
    assert!(c.completed);
    assert_eq!(c.provider, "Mock", "the provider in use stays");
}

#[test]
fn selecting_provider_clears_the_key_field() {
    let mut v = view("fal.ai");
    v.set_key("abc".into());
    v.select_provider("fal.ai".into(), &registry());
    assert_eq!(v.key(), "abc", "the same provider again changes nothing");
    v.select_provider("Replicate".into(), &registry());
    assert_eq!(v.provider, "Replicate");
    assert!(v.key().is_empty(), "key field cleared on provider switch");
    assert_eq!(v.placeholder, "Replicate key");
}

#[test]
fn get_started_then_continue_walk_welcome_features_provider() {
    let mut v = view("Mock");
    assert!(v.step == Step::Welcome, "a fresh onboarding opens on Welcome");
    match v.render(&registry()) {
        Page::Welcome(page) => assert_eq!((page.headline, page.button, page.picture), ("Every AI model. One app.", "Get Started", "logos/app-icon.png")),
        _ => panic!("the welcome page"),
    }
    assert!(!v.go(Step::Features));
    match v.render(&registry()) {
        Page::Features(page) => assert_eq!((page.headline, page.points.len(), page.button), ("How it works", 3, "Continue")),
        _ => panic!("the features page"),
    }
    assert!(v.go(Step::Provider), "the key field takes focus so the user can type straight away");
    assert!(matches!(v.render(&registry()), Page::Provider(_)));
}

#[test]
fn provider_step_starts_on_the_configured_provider() {
    let v = view("Replicate");
    assert_eq!(v.provider, "Replicate");
    let page = v.render_provider(&registry());
    assert_eq!(page.logos.iter().map(|l| (l.id.as_str(), l.selected)).collect::<Vec<_>>(), [("fal.ai", false), ("Replicate", true), ("Local", false)]);
    assert_eq!(page.selected, 1);
    assert!(page.key_field && !page.can_connect);
    assert_eq!(page.account, Some(("Create an account →", "https://Replicate/keys".into())));
    assert_eq!((page.headline, page.line), ("Add your API key", "Pick a provider, paste your key, and you're ready to go."));
    assert!(page.explainer.starts_with("fal.ai and OpenRouter give you pay-as-you-go access to AI models."));
    assert_eq!((page.connect_label, page.skip_label), ("Connect", "Skip for now"));
    assert_eq!(v.segment(&registry(), 2).as_deref(), Some("Local"));
    assert_eq!(v.segment(&registry(), 3), None);
}

#[test]
fn a_provider_without_a_key_connects_and_an_unknown_one_needs_one() {
    let page = view("Local").render_provider(&registry());
    assert!(!page.key_field && page.can_connect);
    let page = view("Gone").render_provider(&registry());
    assert!(page.key_field && !page.can_connect && page.account.is_none());
    assert_eq!(page.selected, 0);
    assert_eq!(placeholder_for(&registry(), "Gone"), "API key");
}
