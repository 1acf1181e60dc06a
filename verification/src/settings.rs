//! The tool's settings: where the DeepSeek exports are, and the Zhihu
//! credentials. Reading and writing `settings.toml` is the caller's part.
use vstd::prelude::*;

verus! {

/// The settings kept in `settings.toml`. A credential is `None` until it is
/// configured; one configured as an empty text counts as not configured.
#[derive(Debug)]
pub struct Settings {
    pub deepseek_dir: String,
    pub zhihu_cookie: Option<String>,
    pub zhihu_xsrf: Option<String>,
}

/// The mathematical value of [`Settings`]: directory, cookie, token.
pub ghost struct SettingsView {
    pub deepseek_dir: Seq<char>,
    pub zhihu_cookie: Option<Seq<char>>,
    pub zhihu_xsrf: Option<Seq<char>>,
}

/// The text of an optional setting, as a value.
pub open spec fn text_of(o: Option<String>) -> Option<Seq<char>> {
    match o {
        Some(s) => Some(s@),
        None => None,
    }
}

impl View for Settings {
    type V = SettingsView;

    open spec fn view(&self) -> SettingsView {
        SettingsView {
            deepseek_dir: self.deepseek_dir@,
            zhihu_cookie: text_of(self.zhihu_cookie),
            zhihu_xsrf: text_of(self.zhihu_xsrf),
        }
    }
}

/// The text a credential stands for: its value, or nothing when unset.
pub open spec fn credential_text(o: Option<Seq<char>>) -> Seq<char> {
    match o {
        Some(s) => s,
        None => Seq::empty(),
    }
}

/// Whether a credential is configured: set, and not empty.
pub open spec fn is_configured(o: Option<Seq<char>>) -> bool {
    credential_text(o).len() > 0
}

/// The value `update` gives a credential whose value is `current`.
pub open spec fn updated_credential(current: Option<Seq<char>>, update: Option<&str>) -> Option<
    Seq<char>,
> {
    match update {
        Some(v) => Some(v@),
        None => current,
    }
}

/// The value `update` gives the directory whose value is `current`.
pub open spec fn updated(current: Seq<char>, update: Option<&str>) -> Seq<char> {
    match update {
        Some(v) => v@,
        None => current,
    }
}

/// The settings after an update: each given value replaces its setting,
/// the others stay.
pub open spec fn applied(
    s: SettingsView,
    deepseek_dir: Option<&str>,
    zhihu_cookie: Option<&str>,
    zhihu_xsrf: Option<&str>,
) -> SettingsView {
    SettingsView {
        deepseek_dir: updated(s.deepseek_dir, deepseek_dir),
        zhihu_cookie: updated_credential(s.zhihu_cookie, zhihu_cookie),
        zhihu_xsrf: updated_credential(s.zhihu_xsrf, zhihu_xsrf),
    }
}

/// The settings when nothing is configured yet: the given export
/// directory, and no credentials.
pub fn default_settings(deepseek_dir: String) -> (r: Settings)
    ensures
        r@ == (SettingsView { deepseek_dir: deepseek_dir@, zhihu_cookie: None, zhihu_xsrf: None }),
{
    Settings { deepseek_dir, zhihu_cookie: None, zhihu_xsrf: None }
}

fn updated_string(current: String, update: Option<&str>) -> (r: String)
    ensures
        r@ == updated(current@, update),
{
    match update {
        Some(v) => v.to_owned(),
        None => current,
    }
}

fn updated_option(current: Option<String>, update: Option<&str>) -> (r: Option<String>)
    ensures
        text_of(r) == updated_credential(text_of(current), update),
{
    match update {
        Some(v) => Some(v.to_owned()),
        None => current,
    }
}

/// The text of a credential, empty when it is unset.
pub fn credential(o: &Option<String>) -> (r: &str)
    ensures
        r@ == credential_text(text_of(*o)),
{
    match o {
        Some(s) => s.as_str(),
        None => {
            proof {
                reveal_strlit("");
            }
            ""
        },
    }
}

/// The settings after `zhihu_init`: each value given replaces its setting.
pub fn apply_settings(
    settings: Settings,
    deepseek_dir: Option<&str>,
    zhihu_cookie: Option<&str>,
    zhihu_xsrf: Option<&str>,
) -> (r: Settings)
    ensures
        r@ == applied(settings@, deepseek_dir, zhihu_cookie, zhihu_xsrf),
{
    Settings {
        deepseek_dir: updated_string(settings.deepseek_dir, deepseek_dir),
        zhihu_cookie: updated_option(settings.zhihu_cookie, zhihu_cookie),
        zhihu_xsrf: updated_option(settings.zhihu_xsrf, zhihu_xsrf),
    }
}

/// Whether both Zhihu credentials are configured, which the daily brief
/// needs.
pub fn has_zhihu_credentials(settings: &Settings) -> (r: bool)
    ensures
        r == (is_configured(settings@.zhihu_cookie) && is_configured(settings@.zhihu_xsrf)),
{
    !credential(&settings.zhihu_cookie).is_empty() && !credential(&settings.zhihu_xsrf).is_empty()
}

/// `已配置` for a configured credential, `未配置` for an unset or empty one.
pub open spec fn configured_text(v: Option<Seq<char>>) -> Seq<char> {
    if is_configured(v) {
        "已配置"@
    } else {
        "未配置"@
    }
}

/// The report of `zhihu_init`: where the settings went, the directory, and
/// whether each credential is configured (never the credential itself).
pub open spec fn settings_report_text(file: Seq<char>, s: SettingsView) -> Seq<char> {
    "配置已保存到 "@ + file + "\n"@ + "- deepseek_dir: "@ + s.deepseek_dir + "\n"@
        + "- zhihu_cookie: "@ + configured_text(s.zhihu_cookie) + "\n"@ + "- zhihu_xsrf: "@
        + configured_text(s.zhihu_xsrf)
}

fn configured(v: &Option<String>) -> (r: &'static str)
    ensures
        r@ == configured_text(text_of(*v)),
{
    if !credential(v).is_empty() {
        "已配置"
    } else {
        "未配置"
    }
}

/// The report of `zhihu_init` for settings saved to `file`.
pub fn settings_report(file: &str, settings: &Settings) -> (r: String)
    ensures
        r@ == settings_report_text(file@, settings@),
{
    let mut r = String::new();
    r.append("配置已保存到 ");
    r.append(file);
    r.append("\n");
    r.append("- deepseek_dir: ");
    r.append(settings.deepseek_dir.as_str());
    r.append("\n");
    r.append("- zhihu_cookie: ");
    r.append(configured(&settings.zhihu_cookie));
    r.append("\n");
    r.append("- zhihu_xsrf: ");
    r.append(configured(&settings.zhihu_xsrf));
    assert(r@ =~= settings_report_text(file@, settings@));
    r
}

/// Applying the same update twice leaves the settings as applying it once.
pub proof fn lemma_apply_settings_idempotent(
    s: SettingsView,
    deepseek_dir: Option<&str>,
    zhihu_cookie: Option<&str>,
    zhihu_xsrf: Option<&str>,
)
    ensures
        applied(applied(s, deepseek_dir, zhihu_cookie, zhihu_xsrf), deepseek_dir, zhihu_cookie, zhihu_xsrf)
            == applied(s, deepseek_dir, zhihu_cookie, zhihu_xsrf),
{
}

/// Each setting the update gives takes that value, and each setting it does
/// not give keeps its old value, whatever the other two are.
pub proof fn lemma_update_touches_only_given_settings(
    s: SettingsView,
    deepseek_dir: Option<&str>,
    zhihu_cookie: Option<&str>,
    zhihu_xsrf: Option<&str>,
)
    ensures
        ({
            let r = applied(s, deepseek_dir, zhihu_cookie, zhihu_xsrf);
            &&& deepseek_dir is None ==> r.deepseek_dir == s.deepseek_dir
            &&& zhihu_cookie is None ==> r.zhihu_cookie == s.zhihu_cookie
            &&& zhihu_xsrf is None ==> r.zhihu_xsrf == s.zhihu_xsrf
            &&& deepseek_dir is Some ==> r.deepseek_dir == deepseek_dir.unwrap()@
            &&& zhihu_cookie is Some ==> r.zhihu_cookie == Some(zhihu_cookie.unwrap()@)
            &&& zhihu_xsrf is Some ==> r.zhihu_xsrf == Some(zhihu_xsrf.unwrap()@)
        }),
{
}

/// An update that gives no value changes nothing.
pub proof fn lemma_empty_update_keeps_settings(s: SettingsView)
    ensures
        applied(s, None, None, None) == s,
{
}

/// The report never holds the credentials: what it says of each is one
/// of two fixed words, whatever the credential is.
pub proof fn lemma_report_hides_credentials(file: Seq<char>, s: SettingsView, t: SettingsView)
    requires
        s.deepseek_dir == t.deepseek_dir,
        is_configured(s.zhihu_cookie) <==> is_configured(t.zhihu_cookie),
        is_configured(s.zhihu_xsrf) <==> is_configured(t.zhihu_xsrf),
    ensures
        settings_report_text(file, s) == settings_report_text(file, t),
{
}

} // verus!
