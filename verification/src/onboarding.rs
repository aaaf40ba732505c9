//! First-launch onboarding: Welcome, then Features (with the telemetry switches), then Provider and
//! key. Shown as the Library window's content until it has been completed.

use vstd::prelude::*;

use crate::seqs::{
    first_from, first_place, keeping_leaves_out_only_what_does_not_fit, kept, lemma_first_from, lemma_picked_ends, lemma_picked_step, picked, sifts,
};
use crate::text::{blank, cat, opt_text, same_text, trim, trimmed, trimming_empties_only_blank_text};

verus! {

#[derive(Clone, Copy, Debug, PartialEq, Eq, Structural)]
pub enum Step {
    Welcome,
    Features,
    Provider,
}

/// What the app knows of a provider.
#[derive(Clone, Debug, PartialEq, Eq)]
pub struct ProviderInfo {
    pub id: String,
    pub display_name: String,
    pub logo: String,
    pub api_key_placeholder: String,
    pub api_key_url: String,
    pub requires_api_key: bool,
    /// The user can choose it.
    pub user_selectable: bool,
}

/// Onboarding's state.
pub struct OnboardingView {
    pub step: Step,
    pub provider: String,
    /// What the key field holds.
    pub key_text: String,
    /// What the key field shows while it is empty.
    pub placeholder: String,
    /// The key is shown as dots.
    pub masked: bool,
    pub status: Option<String>,
}

/// Onboarding's state as contracts speak of it.
#[verifier::ext_equal]
pub struct OnboardingModel {
    pub step: Step,
    pub provider: Seq<char>,
    pub key_text: Seq<char>,
    pub placeholder: Seq<char>,
    pub masked: bool,
    pub status: Option<Seq<char>>,
}

impl View for OnboardingView {
    type V = OnboardingModel;

    open spec fn view(&self) -> OnboardingModel {
        OnboardingModel {
            step: self.step,
            provider: self.provider@,
            key_text: self.key_text@,
            placeholder: self.placeholder@,
            masked: self.masked,
            status: opt_text(self.status),
        }
    }
}

/// A key to store.
#[derive(Clone, Debug, PartialEq, Eq)]
pub struct KeyToSave {
    pub provider: String,
    pub key: String,
}

/// What the settings are told once onboarding ends.
#[derive(Clone, Debug, PartialEq, Eq)]
pub enum Finish {
    /// The key is stored: use this provider, and report that onboarding was completed with it.
    Completed { provider: String },
    /// Report that onboarding was skipped with this provider chosen; the provider in use stays.
    Skipped { provider: String },
}

/// One of the points of the Features page.
#[derive(Clone, Copy, Debug)]
pub struct Feature {
    pub icon: &'static str,
    pub title: &'static str,
    pub subtitle: &'static str,
}

/// A provider's logo, faded unless it is the one chosen.
#[derive(Clone, Debug, PartialEq, Eq)]
pub struct ProviderLogo {
    pub id: String,
    pub logo: String,
    pub name: String,
    pub selected: bool,
}

/// The Provider page.
pub struct ProviderPage {
    pub headline: &'static str,
    /// The line under the headline.
    pub line: &'static str,
    pub logos: Vec<ProviderLogo>,
    /// The segment of the picker that is chosen.
    pub selected: usize,
    /// The key field is shown.
    pub key_field: bool,
    /// What the button that creates an account reads and the address it opens, for a provider that is
    /// known.
    pub account: Option<(&'static str, String)>,
    pub explainer: &'static str,
    pub status: Option<String>,
    pub connect_label: &'static str,
    pub can_connect: bool,
    pub skip_label: &'static str,
}

/// The Welcome page.
#[derive(Clone, Copy, Debug)]
pub struct WelcomePage {
    pub picture: &'static str,
    pub headline: &'static str,
    /// The line under the headline.
    pub line: &'static str,
    /// What the button to the next page reads.
    pub button: &'static str,
}

/// The Features page.
pub struct FeaturesPage {
    pub headline: &'static str,
    pub points: Vec<Feature>,
    /// What the button to the next page reads.
    pub button: &'static str,
}

/// The page of a step.
pub enum Page {
    Welcome(WelcomePage),
    /// With the telemetry switches under its points.
    Features(FeaturesPage),
    Provider(ProviderPage),
}

/// The provider with this id.
pub open spec fn provider_at(registry: Seq<ProviderInfo>, id: Seq<char>) -> Option<ProviderInfo> {
    match first_place(registry, |p: ProviderInfo| p.id@ == id) {
        Some(i) => Some(registry[i]),
        None => None,
    }
}

/// The providers the user can choose.
pub open spec fn choices(registry: Seq<ProviderInfo>) -> Seq<ProviderInfo> {
    kept(registry, |p: ProviderInfo| p.user_selectable)
}

/// What the key field of a provider shows while it is empty.
pub open spec fn placeholder_text(registry: Seq<ProviderInfo>, id: Seq<char>) -> Seq<char> {
    match provider_at(registry, id) {
        Some(p) => p.api_key_placeholder@,
        None => "API key"@,
    }
}

/// Whether a provider needs a key; one that is not known does.
pub open spec fn needs_key(registry: Seq<ProviderInfo>, id: Seq<char>) -> bool {
    match provider_at(registry, id) {
        Some(p) => p.requires_api_key,
        None => true,
    }
}

/// Whether Connect can be pressed.
pub open spec fn connectable(registry: Seq<ProviderInfo>, view: OnboardingModel) -> bool {
    !needs_key(registry, view.provider) || trimmed(view.key_text).len() > 0
}

/// Onboarding once another provider was chosen: the key typed for the one before is gone.
pub open spec fn with_provider(registry: Seq<ProviderInfo>, view: OnboardingModel, id: Seq<char>) -> OnboardingModel {
    if view.provider == id {
        view
    } else {
        OnboardingModel {
            provider: id,
            key_text: Seq::empty(),
            placeholder: placeholder_text(registry, id),
            masked: true,
            status: None,
            ..view
        }
    }
}

fn find(registry: &Vec<ProviderInfo>, id: &str) -> (r: Option<usize>)
    ensures
        match (r, first_place(registry@, |p: ProviderInfo| p.id@ == id@)) {
            (Some(a), Some(b)) => a == b && a < registry@.len(),
            (None, None) => true,
            _ => false,
        },
{
    let ghost fits = |p: ProviderInfo| p.id@ == id@;
    let mut i: usize = 0;
    while i < registry.len()
        invariant
            i <= registry.len(),
            fits == (|p: ProviderInfo| p.id@ == id@),
            first_from(registry@, fits, 0) == first_from(registry@, fits, i as int),
        decreases registry.len() - i,
    {
        if same_text(registry[i].id.as_str(), id) {
            return Some(i);
        }
        i += 1;
    }
    None
}

/// What the key field of a provider shows while it is empty.
pub fn placeholder_for(registry: &Vec<ProviderInfo>, id: &str) -> (r: String)
    ensures
        r@ == placeholder_text(registry@, id@),
{
    match find(registry, id) {
        Some(i) => registry[i].api_key_placeholder.clone(),
        None => "API key".to_owned(),
    }
}

impl OnboardingView {
    /// Onboarding opens on Welcome, with the configured provider chosen.
    pub fn new(provider: String, registry: &Vec<ProviderInfo>) -> (r: OnboardingView)
        ensures
            r@ == (OnboardingModel {
                step: Step::Welcome,
                provider: provider@,
                key_text: Seq::<char>::empty(),
                placeholder: placeholder_text(registry@, provider@),
                masked: true,
                status: None,
            }),
    {
        let placeholder = placeholder_for(registry, provider.as_str());
        OnboardingView { step: Step::Welcome, provider, key_text: String::new(), placeholder, masked: true, status: None }
    }

    /// Go to a step. Returns whether the key field takes the focus, so the user can type straight
    /// away.
    pub fn go(&mut self, step: Step) -> (focus_key: bool)
        ensures
            final(self)@ == (OnboardingModel { step, ..old(self)@ }),
            focus_key == (step == Step::Provider),
    {
        self.step = step;
        step == Step::Provider
    }

    /// The key field changed.
    pub fn set_key(&mut self, text: String)
        ensures
            final(self)@ == (OnboardingModel { key_text: text@, ..old(self)@ }),
    {
        self.key_text = text;
    }

    /// Choose a provider. Another one than before clears the key field.
    pub fn select_provider(&mut self, id: String, registry: &Vec<ProviderInfo>)
        ensures
            final(self)@ == with_provider(registry@, old(self)@, id@),
    {
        if same_text(self.provider.as_str(), id.as_str()) {
            return;
        }
        self.placeholder = placeholder_for(registry, id.as_str());
        self.provider = id;
        self.status = None;
        self.key_text = String::new();
        self.masked = true;
    }

    /// The key typed, without white space around it.
    pub fn key(&self) -> (r: String)
        ensures
            r@ == trimmed(self@.key_text),
    {
        trim(self.key_text.as_str())
    }

    /// Connect: the key to store, under the chosen provider. Nothing without a key.
    pub fn connect(&mut self) -> (r: Option<KeyToSave>)
        ensures
            match r {
                Some(save) => {
                    &&& trimmed(old(self)@.key_text).len() > 0
                    &&& save.key@ == trimmed(old(self)@.key_text)
                    &&& save.provider@ == old(self)@.provider
                    &&& final(self)@ == (OnboardingModel { status: None, ..old(self)@ })
                },
                None => trimmed(old(self)@.key_text).len() == 0 && final(self)@ == old(self)@,
            },
    {
        let key = self.key();
        if key.as_str().is_empty() {
            return None;
        }
        self.status = None;
        Some(KeyToSave { provider: self.provider.clone(), key })
    }

    /// The key was stored, which ends onboarding, or could not be, which is said on the page.
    pub fn key_saved(&mut self, saved: KeyToSave, result: Result<(), String>) -> (r: Option<Finish>)
        ensures
            match result {
                Ok(()) => r == Some(Finish::Completed { provider: saved.provider }) && final(self)@ == old(self)@,
                Err(e) => r is None && final(self)@ == (OnboardingModel {
                    status: Some("Couldn't save key: "@ + e@),
                    ..old(self)@
                }),
            },
    {
        match result {
            Ok(()) => Some(Finish::Completed { provider: saved.provider }),
            Err(e) => {
                self.status = Some(cat("Couldn't save key: ", e.as_str()));
                None
            },
        }
    }

    /// Skip: onboarding ends without a key.
    pub fn skip(&self) -> (r: Finish)
        ensures
            r matches Finish::Skipped { provider } && provider@ == self@.provider,
    {
        Finish::Skipped { provider: self.provider.clone() }
    }

    /// The Welcome page.
    pub fn render_welcome(&self) -> (r: WelcomePage)
        ensures
            welcome_shows(r),
    {
        WelcomePage {
            picture: "logos/app-icon.png",
            headline: "Every AI model. One app.",
            line: "Generate images and videos with Nano Banana, Flux, GPT-5, and more.",
            button: "Get Started",
        }
    }

    /// The Features page: its headline and points.
    pub fn render_features(&self) -> (r: FeaturesPage)
        ensures
            features_show(r),
    {
        let mut points: Vec<Feature> = Vec::new();
        points.push(
            Feature {
                icon: "circle-dollar-sign",
                title: "No subscription. No markup.",
                subtitle: "Bring your own API key. You pay what it costs.",
            },
        );
        points.push(
            Feature {
                icon: "shield-check",
                title: "No middleman.",
                subtitle: "The app calls the provider directly. Images stay on your device.",
            },
        );
        points.push(
            Feature {
                icon: "monitor",
                title: "Mac, Windows, Linux.",
                subtitle: "One library across all your devices, stored as plain files on your disk.",
            },
        );
        FeaturesPage { headline: "How it works", points, button: "Continue" }
    }

    /// The Provider page: a logo and a segment for each provider the user can choose, the key field
    /// where the chosen one needs a key, and whether Connect can be pressed.
    pub fn render_provider(&self, registry: &Vec<ProviderInfo>) -> (r: ProviderPage)
        ensures
            page_shows(registry@, self@, r),
    {
        let ghost selectable = |p: ProviderInfo| p.user_selectable;
        let ghost pick = |x: ProviderInfo|
            if selectable(x) {
                Some(x)
            } else {
                None
            };
        let mut logos: Vec<ProviderLogo> = Vec::new();
        let mut offered: Vec<usize> = Vec::new();
        let mut i: usize = 0;
        proof {
            lemma_picked_ends(registry@, pick);
        }
        while i < registry.len()
            invariant
                i <= registry.len(),
                selectable == (|p: ProviderInfo| p.user_selectable),
                pick == (|x: ProviderInfo|
                    if selectable(x) {
                        Some(x)
                    } else {
                        None
                    }),
                offered@.len() == picked(registry@.take(i as int), pick).len(),
                logos@.len() == offered@.len(),
                forall|k: int|
                    0 <= k < offered@.len() ==> #[trigger] offered@[k] < registry@.len() && registry@[offered@[k] as int] == picked(
                        registry@.take(i as int),
                        pick,
                    )[k],
                forall|k: int|
                    0 <= k < logos@.len() ==> logo_for(
                        picked(registry@.take(i as int), pick)[k],
                        self.provider@,
                        #[trigger] logos@[k],
                    ),
            decreases registry.len() - i,
        {
            proof {
                lemma_picked_step(registry@, pick, i as int);
            }
            if registry[i].user_selectable {
                let p = &registry[i];
                logos.push(
                    ProviderLogo {
                        id: p.id.clone(),
                        logo: p.logo.clone(),
                        name: p.display_name.clone(),
                        selected: same_text(p.id.as_str(), self.provider.as_str()),
                    },
                );
                offered.push(i);
            }
            i += 1;
        }
        proof {
            lemma_picked_ends(registry@, pick);
        }
        let ghost shown = choices(registry@);
        assert(shown == picked(registry@, pick));
        let ghost fits = |p: ProviderInfo| p.id@ == self@.provider;
        let mut selected: usize = 0;
        let mut j: usize = 0;
        let mut found = false;
        while j < logos.len() && !found
            invariant
                j <= logos.len(),
                selected <= j,
                logos@.len() == shown.len(),
                fits == (|p: ProviderInfo| p.id@ == self@.provider),
                forall|k: int| 0 <= k < logos@.len() ==> logo_for(shown[k], self.provider@, #[trigger] logos@[k]),
                found ==> first_from(shown, fits, 0) == Some(selected as int),
                !found ==> selected == 0 && first_from(shown, fits, 0) == first_from(shown, fits, j as int),
            decreases logos.len() - j + if found { 0int } else { 1 },
        {
            assert(logo_for(shown[j as int], self.provider@, logos@[j as int]));
            if logos[j].selected {
                selected = j;
                found = true;
            } else {
                j += 1;
            }
        }
        let known = find(registry, self.provider.as_str());
        let key_field = match known {
            Some(k) => registry[k].requires_api_key,
            None => true,
        };
        let account = match known {
            Some(k) => Some(("Create an account →", registry[k].api_key_url.clone())),
            None => None,
        };
        let key = self.key();
        ProviderPage {
            headline: "Add your API key",
            line: "Pick a provider, paste your key, and you're ready to go.",
            logos,
            selected,
            key_field,
            account,
            explainer: "fal.ai and OpenRouter give you pay-as-you-go access to AI models. Sign up, add a payment method, and pay per generation. Majik uses your key to call them directly - your billing stays between you and them.",
            status: match &self.status {
                Some(s) => Some(s.clone()),
                None => None,
            },
            connect_label: "Connect",
            can_connect: !key_field || !key.as_str().is_empty(),
            skip_label: "Skip for now",
        }
    }

    /// The page of the current step.
    pub fn render(&self, registry: &Vec<ProviderInfo>) -> (r: Page)
        ensures
            match self@.step {
                Step::Welcome => r matches Page::Welcome(page) && welcome_shows(page),
                Step::Features => r matches Page::Features(page) && features_show(page),
                Step::Provider => r matches Page::Provider(page) && page_shows(registry@, self@, page),
            },
    {
        match self.step {
            Step::Welcome => Page::Welcome(self.render_welcome()),
            Step::Features => Page::Features(self.render_features()),
            Step::Provider => Page::Provider(self.render_provider(registry)),
        }
    }

    /// The provider a segment of the picker stands for.
    pub fn segment(&self, registry: &Vec<ProviderInfo>, index: usize) -> (r: Option<String>)
        ensures
            opt_text(r) == if index < choices(registry@).len() {
                Some(choices(registry@)[index as int].id@)
            } else {
                None
            },
    {
        let page = self.render_provider(registry);
        if index < page.logos.len() {
            assert(logo_for(choices(registry@)[index as int], self@.provider, page.logos@[index as int]));
            Some(page.logos[index].id.clone())
        } else {
            None
        }
    }
}

/// Whether `page` is the Welcome page.
pub open spec fn welcome_shows(page: WelcomePage) -> bool {
    &&& page.picture@ == "logos/app-icon.png"@
    &&& page.headline@ == "Every AI model. One app."@
    &&& page.line@ == "Generate images and videos with Nano Banana, Flux, GPT-5, and more."@
    &&& page.button@ == "Get Started"@
}

/// Whether `page` is the Features page.
pub open spec fn features_show(page: FeaturesPage) -> bool {
    &&& page.headline@ == "How it works"@
    &&& features_are(page.points@)
    &&& page.button@ == "Continue"@
}

/// The points of the Features page.
pub open spec fn features_are(points: Seq<Feature>) -> bool {
    &&& points.len() == 3
    &&& feature_is(
        points[0],
        "circle-dollar-sign"@,
        "No subscription. No markup."@,
        "Bring your own API key. You pay what it costs."@,
    )
    &&& feature_is(
        points[1],
        "shield-check"@,
        "No middleman."@,
        "The app calls the provider directly. Images stay on your device."@,
    )
    &&& feature_is(
        points[2],
        "monitor"@,
        "Mac, Windows, Linux."@,
        "One library across all your devices, stored as plain files on your disk."@,
    )
}

/// Whether `page` is the Provider page of `view`.
pub open spec fn page_shows(registry: Seq<ProviderInfo>, view: OnboardingModel, page: ProviderPage) -> bool {
    &&& page.logos@.len() == choices(registry).len()
    &&& forall|i: int| 0 <= i < page.logos@.len() ==> logo_for(choices(registry)[i], view.provider, #[trigger] page.logos@[i])
    &&& page.selected == match first_place(choices(registry), |p: ProviderInfo| p.id@ == view.provider) {
        Some(i) => i,
        None => 0,
    }
    &&& page.headline@ == "Add your API key"@
    &&& page.line@ == "Pick a provider, paste your key, and you're ready to go."@
    &&& page.key_field == needs_key(registry, view.provider)
    &&& match (page.account, provider_at(registry, view.provider)) {
        (Some((label, url)), Some(p)) => label@ == "Create an account →"@ && url@ == p.api_key_url@,
        (None, None) => true,
        _ => false,
    }
    &&& page.explainer@
        == "fal.ai and OpenRouter give you pay-as-you-go access to AI models. Sign up, add a payment method, and pay per generation. Majik uses your key to call them directly - your billing stays between you and them."@
    &&& opt_text(page.status) == view.status
    &&& page.connect_label@ == "Connect"@
    &&& page.can_connect == connectable(registry, view)
    &&& page.skip_label@ == "Skip for now"@
}

pub open spec fn feature_is(f: Feature, icon: Seq<char>, title: Seq<char>, subtitle: Seq<char>) -> bool {
    f.icon@ == icon && f.title@ == title && f.subtitle@ == subtitle
}

/// Whether `logo` is that of provider `p`, with `chosen` chosen.
pub open spec fn logo_for(p: ProviderInfo, chosen: Seq<char>, logo: ProviderLogo) -> bool {
    &&& logo.id@ == p.id@
    &&& logo.logo@ == p.logo@
    &&& logo.name@ == p.display_name@
    &&& logo.selected == (p.id@ == chosen)
}

/// The settings' part in onboarding: the provider in use, and whether onboarding is done.
pub struct OnboardingConfig {
    pub provider: String,
    pub completed: bool,
}

/// End onboarding.
pub fn finish(config: &mut OnboardingConfig, how: Finish)
    ensures
        final(config).completed,
        final(config).provider@ == match how {
            Finish::Completed { provider } => provider@,
            Finish::Skipped { .. } => old(config).provider@,
        },
{
    match how {
        Finish::Completed { provider } => {
            config.provider = provider;
        },
        Finish::Skipped { .. } => {},
    }
    config.completed = true;
}

// ----- laws -----------------------------------------------------------------------------------

/// Choosing the provider that is chosen changes nothing, and choosing another twice is choosing it
/// once: what was typed since is kept.
pub proof fn choosing_a_provider_again_keeps_the_key(registry: Seq<ProviderInfo>, view: OnboardingModel, id: Seq<char>, typed: Seq<char>)
    ensures
        with_provider(registry, view, view.provider) == view,
        ({
            let chosen = OnboardingModel { key_text: typed, ..with_provider(registry, view, id) };
            with_provider(registry, chosen, id) == chosen
        }),
{
}

/// A key typed for one provider is never stored for another: after a switch there is no key.
pub proof fn switching_providers_drops_the_key(registry: Seq<ProviderInfo>, view: OnboardingModel, id: Seq<char>)
    requires
        view.provider != id,
    ensures
        trimmed(with_provider(registry, view, id).key_text).len() == 0,
        with_provider(registry, view, id).masked,
        needs_key(registry, id) ==> !connectable(registry, with_provider(registry, view, id)),
{
}

/// The segment shown as chosen is the chosen provider's, whenever that can be chosen.
pub proof fn the_chosen_segment_is_the_chosen_provider(registry: Seq<ProviderInfo>, provider: Seq<char>)
    requires
        exists|i: int| 0 <= i < choices(registry).len() && (#[trigger] choices(registry)[i]).id@ == provider,
    ensures
        ({
            let place = first_place(choices(registry), |p: ProviderInfo| p.id@ == provider);
            place is Some && 0 <= place->0 < choices(registry).len() && choices(registry)[place->0].id@ == provider
        }),
{
    lemma_first_from(choices(registry), |p: ProviderInfo| p.id@ == provider, 0);
}

/// The model of the view is what its fields hold.
pub proof fn onboarding_is_its_fields(view: OnboardingView)
    ensures
        view@.step == view.step,
        view@.provider == view.provider@,
        view@.key_text == view.key_text@,
        view@.placeholder == view.placeholder@,
        view@.masked == view.masked,
        view@.status == opt_text(view.status),
{
}

/// A provider is found by its id, the first that has it. One that is known needs a key where it says so, and
/// brings its own placeholder; one that is not known needs a key.
pub proof fn a_provider_is_found_by_its_id(registry: Seq<ProviderInfo>, id: Seq<char>)
    ensures
        match provider_at(registry, id) {
            Some(row) => exists|i: int|
                0 <= i < registry.len() && #[trigger] registry[i] == row && row.id@ == id && (forall|j: int| 0 <= j < i ==> (#[trigger] registry[j]).id@ != id),
            None => forall|j: int| 0 <= j < registry.len() ==> (#[trigger] registry[j]).id@ != id,
        },
        provider_at(registry, id) matches Some(row) ==> needs_key(registry, id) == row.requires_api_key && placeholder_text(registry, id)
            == row.api_key_placeholder@,
        provider_at(registry, id) is None ==> needs_key(registry, id) && placeholder_text(registry, id) == "API key"@,
{
    assert forall|fits: spec_fn(ProviderInfo) -> bool| match #[trigger] first_place(registry, fits) {
        Some(i) => 0 <= i < registry.len() && fits(registry[i]) && (forall|j: int| 0 <= j < i ==> !fits(#[trigger] registry[j])),
        None => forall|j: int| 0 <= j < registry.len() ==> !fits(#[trigger] registry[j]),
    } by {
        lemma_first_from(registry, fits, 0);
    }
}

/// Every provider the user can choose is offered, in order, and no other.
pub proof fn every_choosable_provider_is_offered(registry: Seq<ProviderInfo>)
    ensures
        sifts(registry, |p: ProviderInfo| p.user_selectable, choices(registry)),
        forall|p: ProviderInfo| #[trigger] choices(registry).contains(p) <==> registry.contains(p) && p.user_selectable,
{
    keeping_leaves_out_only_what_does_not_fit(registry, |p: ProviderInfo| p.user_selectable);
}

/// Connect waits for a key where the provider needs one: blank text is none. A provider that needs no key
/// connects without.
pub proof fn connecting_takes_a_key(registry: Seq<ProviderInfo>, view: OnboardingModel)
    ensures
        needs_key(registry, view.provider) ==> (connectable(registry, view) <==> !blank(view.key_text)),
        !needs_key(registry, view.provider) ==> connectable(registry, view),
{
    trimming_empties_only_blank_text(view.key_text);
}

/// Choosing another provider starts its key field afresh: empty, with its placeholder, as dots, and without
/// what was said of the one before; the step stays.
pub proof fn another_provider_starts_afresh(registry: Seq<ProviderInfo>, view: OnboardingModel, id: Seq<char>)
    requires
        view.provider != id,
    ensures
        with_provider(registry, view, id).provider == id,
        with_provider(registry, view, id).key_text.len() == 0,
        with_provider(registry, view, id).placeholder == placeholder_text(registry, id),
        with_provider(registry, view, id).masked,
        with_provider(registry, view, id).status is None,
        with_provider(registry, view, id).step == view.step,
{
}

/// The Provider page shows each provider offered with its own id, logo and name, the chosen one as chosen, the
/// key field and the account button of the chosen one, and what was said of its key.
pub proof fn the_page_shows_the_chosen_provider(registry: Seq<ProviderInfo>, view: OnboardingModel, page: ProviderPage, i: int)
    requires
        page_shows(registry, view, page),
        0 <= i < choices(registry).len(),
    ensures
        page.logos@.len() == choices(registry).len(),
        page.logos@[i].id@ == choices(registry)[i].id@,
        page.logos@[i].logo@ == choices(registry)[i].logo@,
        page.logos@[i].name@ == choices(registry)[i].display_name@,
        page.logos@[i].selected <==> choices(registry)[i].id@ == view.provider,
        choices(registry)[i].id@ == view.provider ==> page.selected <= i && choices(registry)[page.selected as int].id@ == view.provider,
        page.key_field == needs_key(registry, view.provider),
        page.can_connect == connectable(registry, view),
        page.account is Some <==> provider_at(registry, view.provider) is Some,
        page.account matches Some((_, url)) ==> url@ == (provider_at(registry, view.provider)->0).api_key_url@,
        opt_text(page.status) == view.status,
{
    lemma_first_from(choices(registry), |p: ProviderInfo| p.id@ == view.provider, 0);
    assert(logo_for(choices(registry)[i], view.provider, page.logos@[i]));
}

/// The first pages read what the app is and how it works.
pub proof fn the_first_pages_say_what_the_app_is(welcome: WelcomePage, features: FeaturesPage)
    requires
        welcome_shows(welcome),
        features_show(features),
    ensures
        welcome.picture@ == "logos/app-icon.png"@,
        welcome.headline@ == "Every AI model. One app."@,
        welcome.line@ == "Generate images and videos with Nano Banana, Flux, GPT-5, and more."@,
        welcome.button@ == "Get Started"@,
        features.headline@ == "How it works"@,
        features.button@ == "Continue"@,
        features.points@.len() == 3,
        features.points@[0].icon@ == "circle-dollar-sign"@ && features.points@[0].title@ == "No subscription. No markup."@
            && features.points@[0].subtitle@ == "Bring your own API key. You pay what it costs."@,
        features.points@[1].icon@ == "shield-check"@ && features.points@[1].title@ == "No middleman."@ && features.points@[1].subtitle@
            == "The app calls the provider directly. Images stay on your device."@,
        features.points@[2].icon@ == "monitor"@ && features.points@[2].title@ == "Mac, Windows, Linux."@ && features.points@[2].subtitle@
            == "One library across all your devices, stored as plain files on your disk."@,
{
}

/// The Provider page reads the same whichever provider is chosen, asks for a key where the provider needs one,
/// and without a known provider stays on the first.
pub proof fn the_provider_page_reads_the_same(registry: Seq<ProviderInfo>, view: OnboardingModel, page: ProviderPage)
    requires
        page_shows(registry, view, page),
    ensures
        page.headline@ == "Add your API key"@,
        page.line@ == "Pick a provider, paste your key, and you're ready to go."@,
        page.explainer@
            == "fal.ai and OpenRouter give you pay-as-you-go access to AI models. Sign up, add a payment method, and pay per generation. Majik uses your key to call them directly - your billing stays between you and them."@,
        page.connect_label@ == "Connect"@,
        page.skip_label@ == "Skip for now"@,
        page.account matches Some((label, _)) ==> label@ == "Create an account →"@,
        page.key_field == needs_key(registry, view.provider),
        page.can_connect == connectable(registry, view),
        (forall|i: int| 0 <= i < choices(registry).len() ==> (#[trigger] choices(registry)[i]).id@ != view.provider) ==> page.selected == 0,
{
    lemma_first_from(choices(registry), |p: ProviderInfo| p.id@ == view.provider, 0);
}

} // verus!
