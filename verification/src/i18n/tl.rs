//! Tagalog translations of the interface strings, keyed by their English
//! text (or by a stable identifier for longer messages).
//!
//! The entries whose key or text names the vendor's assistant product (its
//! name, its install and sign-in prompts) are not held here; like any other
//! missing key they fall back to English, then to the key itself.

use vstd::prelude::*;

verus! {
/// The Tagalog table, in insertion order.
pub open spec fn table() -> Seq<(Seq<char>, Seq<char>)> {
    seq![
        ("5-hour session"@, "5-oras na sesyon"@),
        ("Weekly (7-day)"@, "Lingguhan (7-araw)"@),
        ("Opus (7-day)"@, "Opus (7-araw)"@),
        ("Sonnet (7-day)"@, "Sonnet (7-araw)"@),
        ("OAuth Apps (7-day)"@, "OAuth Apps (7-araw)"@),
        ("resets in"@, "mare-reset sa"@),
        ("Plan"@, "Plano"@),
        ("Pro"@, "Pro"@),
        ("Max"@, "Max"@),
        ("credentials_not_found"@, "Hindi nahanap ang kredensyal"@),
        ("connection_error"@, "Error sa koneksyon"@),
        ("token_expired"@, "Nag-expire na ang token"@),
        ("rate_limited"@, "Na-rate limit"@),
        ("server_error"@, "Error sa server"@),
        ("server_error_desc"@, "Pansamantalang hindi available ang Anthropic API. Awtomatikong susubukan muli."@),
        ("openai_no_api"@, "Walang API ang OpenAI para subaybayan ang paggamit ng ChatGPT subscription."@),
        ("Check your usage manually:"@, "Manu-manong suriin ang paggamit:"@),
        ("Open ChatGPT Usage \u{2192}"@, "Buksan ang ChatGPT Usage \u{2192}"@),
        ("Refresh Now"@, "I-refresh Ngayon"@),
        ("Open Dashboard"@, "Buksan ang Dashboard"@),
        ("Export History (CSV)"@, "I-export ang Kasaysayan (CSV)"@),
        ("Export History (JSON)"@, "I-export ang Kasaysayan (JSON)"@),
        ("Show extra usage"@, "Ipakita ang dagdag na paggamit"@),
        ("Show model limits"@, "Ipakita ang mga limitasyon ng modelo"@),
        ("Usage link icons"@, "Mga icon ng link ng paggamit"@),
        ("Open usage"@, "Buksan ang paggamit"@),
        ("Service status"@, "Katayuan ng serbisyo"@),
        ("CODEX"@, "CODEX"@),
        ("Settings"@, "Mga Setting"@),
        ("Start with Windows"@, "Magsimula sa Windows"@),
        ("About"@, "Tungkol sa"@),
        ("Exit"@, "Lumabas"@),
        ("Last updated:"@, "Huling na-update:"@),
        ("Refresh"@, "I-refresh"@),
        ("Status"@, "Katayuan"@),
        ("Usage Alert"@, "Alerto sa Paggamit"@),
        ("Usage Critical"@, "Kritikal na Paggamit"@),
        ("Running in system tray. Click the icon for details."@, "Tumatakbo sa system tray. I-click ang icon para sa detalye."@),
        ("Compact mode"@, "Compact mode"@),
        ("Theme"@, "Tema"@),
        ("Language"@, "Wika"@),
        ("Notifications"@, "Mga Notipikasyon"@),
        ("Dark"@, "Madilim"@),
        ("Light"@, "Maliwanag"@),
        ("Auto"@, "Auto"@),
        ("Show ChatGPT section"@, "Ipakita ang seksyon ng ChatGPT"@),
        ("Enabled"@, "Naka-enable"@),
        ("Sound"@, "Tunog"@),
        ("Thresholds"@, "Mga Threshold"@),
        ("Polling interval"@, "Agwat ng pag-poll"@),
        ("seconds"@, "segundo"@),
        ("Startup"@, "Pagsisimula"@),
        ("General"@, "Pangkalahatan"@),
        ("Back"@, "\u{2190} Bumalik"@),
        ("ClaudeMeter"@, "ClaudeMeter"@),
        ("CHATGPT / CODEX"@, "CHATGPT / CODEX"@),
        ("Usage History"@, "Kasaysayan ng Paggamit"@),
        ("Usage History (24h)"@, "Kasaysayan ng Paggamit (24h)"@),
        ("Auto (English)"@, "Auto (English)"@),
        ("at"@, "sa"@),
        ("Resets in"@, "Mare-reset sa"@),
        ("Tray icon colors:"@, "Mga kulay ng tray icon:"@),
        ("< 50% usage"@, "< 50% paggamit"@),
        ("50-79% usage"@, "50\u{2013}79% paggamit"@),
        (">= 80% usage"@, "\u{2265} 80% paggamit"@),
        ("No data"@, "Walang data"@),
        ("exceeded"@, "lumampas"@),
        ("Show widget"@, "Ipakita ang widget"@),
        ("Check for updates"@, "Suriin ang mga update"@),
        ("Accessibility patterns"@, "Mga pattern ng accessibility"@),
        ("Update available"@, "May available na update"@),
        ("is available. Click to download."@, "ay available. I-click para i-download."@),
        ("Icon style"@, "Estilo ng icon"@),
        ("Number"@, "Numero"@),
        ("Ring"@, "Bilog"@),
        ("Bar"@, "Bar"@),
        ("Pie"@, "Pie"@),
        ("Dashboard layout"@, "Layout ng dashboard"@),
        ("Minimal"@, "Minimal"@),
        ("Standard"@, "Standard"@),
        ("Detailed"@, "Detalyado"@),
        ("Hide Extra Usage"@, "Itago ang Extra Usage"@),
        ("stale_token_expired"@, "Luma na — expired ang token"@),
        ("stale_data"@, "Luma na — huling alam na halaga"@),
        ("codex_no_data"@, "Walang aktibong window ng limitasyon ng Codex. Binabasa ang paggamit mula sa lokal na mga log ng session ng Codex — magsimula o magpatuloy ng session at lilitaw ito rito."@),
        ("Open Codex Usage →"@, "Buksan ang paggamit ng Codex →"@),
        ("Midnight"@, "Hatinggabi"@),
        ("Sunset"@, "Paglubog ng araw"@),
        ("Show Codex section"@, "Ipakita ang seksyong Codex"@),
        ("Reopen the tray popup to refresh"@, "Buksang muli ang popup para mag-refresh"@),
        ("Show startup notification"@, "Ipakita ang abiso sa pagsisimula"@),
        ("Show login expiry warning"@, "Babala kapag mag-e-expire ang login"@),
        ("Alert thresholds"@, "Mga threshold ng alerto"@),
        ("Notification sound"@, "Tunog ng abiso"@),
        ("Test notification"@, "Pagsubok na abiso"@),
        ("Send"@, "Ipadala"@),
        ("pace_projection"@, "Bilis: patungo sa ~{}% sa pag-reset"@),
        ("pace_too_early"@, "Bilis: masyadong maaga pang mahulaan"@),
        ("Open Config"@, "Buksan ang config"@),
        ("Export Config"@, "I-export ang config..."@),
        ("Import Config"@, "I-import ang config..."@),
        ("Enable Autostart"@, "Paganahin ang autostart"@),
        ("Disable Autostart"@, "Huwag paganahin ang autostart"@),
        ("Open Logs"@, "Buksan ang mga log"@),
        ("Quit"@, "Umalis"@),
        ("Freshness"@, "Pagiging sariwa"@),
        ("Live"@, "Live"@),
        ("Cached"@, "Mula sa cache / wala pang datos ng API"@),
        ("api_error"@, "Error sa API"@),
        ("Refreshing"@, "Nagre-refresh..."@),
        ("time_ago"@, "{} ang nakalipas"@),
        ("latest_version"@, "Ginagamit mo ang pinakabagong bersyon."@),
        ("update_check_failed"@, "Hindi masuri ang mga update."@),
    ]
}

/// The Tagalog translation table.
pub fn strings() -> (r: Vec<(&'static str, &'static str)>)
    ensures
        super::entries_view(r@) == table(),
{
    let r = vec![
        ("5-hour session", "5-oras na sesyon"),
        ("Weekly (7-day)", "Lingguhan (7-araw)"),
        ("Opus (7-day)", "Opus (7-araw)"),
        ("Sonnet (7-day)", "Sonnet (7-araw)"),
        ("OAuth Apps (7-day)", "OAuth Apps (7-araw)"),
        ("resets in", "mare-reset sa"),
        ("Plan", "Plano"),
        ("Pro", "Pro"),
        ("Max", "Max"),
        ("credentials_not_found", "Hindi nahanap ang kredensyal"),
        ("connection_error", "Error sa koneksyon"),
        ("token_expired", "Nag-expire na ang token"),
        ("rate_limited", "Na-rate limit"),
        ("server_error", "Error sa server"),
        ("server_error_desc", "Pansamantalang hindi available ang Anthropic API. Awtomatikong susubukan muli."),
        ("openai_no_api", "Walang API ang OpenAI para subaybayan ang paggamit ng ChatGPT subscription."),
        ("Check your usage manually:", "Manu-manong suriin ang paggamit:"),
        ("Open ChatGPT Usage \u{2192}", "Buksan ang ChatGPT Usage \u{2192}"),
        ("Refresh Now", "I-refresh Ngayon"),
        ("Open Dashboard", "Buksan ang Dashboard"),
        ("Export History (CSV)", "I-export ang Kasaysayan (CSV)"),
        ("Export History (JSON)", "I-export ang Kasaysayan (JSON)"),
        ("Show extra usage", "Ipakita ang dagdag na paggamit"),
        ("Show model limits", "Ipakita ang mga limitasyon ng modelo"),
        ("Usage link icons", "Mga icon ng link ng paggamit"),
        ("Open usage", "Buksan ang paggamit"),
        ("Service status", "Katayuan ng serbisyo"),
        ("CODEX", "CODEX"),
        ("Settings", "Mga Setting"),
        ("Start with Windows", "Magsimula sa Windows"),
        ("About", "Tungkol sa"),
        ("Exit", "Lumabas"),
        ("Last updated:", "Huling na-update:"),
        ("Refresh", "I-refresh"),
        ("Status", "Katayuan"),
        ("Usage Alert", "Alerto sa Paggamit"),
        ("Usage Critical", "Kritikal na Paggamit"),
        ("Running in system tray. Click the icon for details.", "Tumatakbo sa system tray. I-click ang icon para sa detalye."),
        ("Compact mode", "Compact mode"),
        ("Theme", "Tema"),
        ("Language", "Wika"),
        ("Notifications", "Mga Notipikasyon"),
        ("Dark", "Madilim"),
        ("Light", "Maliwanag"),
        ("Auto", "Auto"),
        ("Show ChatGPT section", "Ipakita ang seksyon ng ChatGPT"),
        ("Enabled", "Naka-enable"),
        ("Sound", "Tunog"),
        ("Thresholds", "Mga Threshold"),
        ("Polling interval", "Agwat ng pag-poll"),
        ("seconds", "segundo"),
        ("Startup", "Pagsisimula"),
        ("General", "Pangkalahatan"),
        ("Back", "\u{2190} Bumalik"),
        ("ClaudeMeter", "ClaudeMeter"),
        ("CHATGPT / CODEX", "CHATGPT / CODEX"),
        ("Usage History", "Kasaysayan ng Paggamit"),
        ("Usage History (24h)", "Kasaysayan ng Paggamit (24h)"),
        ("Auto (English)", "Auto (English)"),
        ("at", "sa"),
        ("Resets in", "Mare-reset sa"),
        ("Tray icon colors:", "Mga kulay ng tray icon:"),
        ("< 50% usage", "< 50% paggamit"),
        ("50-79% usage", "50\u{2013}79% paggamit"),
        (">= 80% usage", "\u{2265} 80% paggamit"),
        ("No data", "Walang data"),
        ("exceeded", "lumampas"),
        ("Show widget", "Ipakita ang widget"),
        ("Check for updates", "Suriin ang mga update"),
        ("Accessibility patterns", "Mga pattern ng accessibility"),
        ("Update available", "May available na update"),
        ("is available. Click to download.", "ay available. I-click para i-download."),
        ("Icon style", "Estilo ng icon"),
        ("Number", "Numero"),
        ("Ring", "Bilog"),
        ("Bar", "Bar"),
        ("Pie", "Pie"),
        ("Dashboard layout", "Layout ng dashboard"),
        ("Minimal", "Minimal"),
        ("Standard", "Standard"),
        ("Detailed", "Detalyado"),
        ("Hide Extra Usage", "Itago ang Extra Usage"),
        ("stale_token_expired", "Luma na — expired ang token"),
        ("stale_data", "Luma na — huling alam na halaga"),
        ("codex_no_data", "Walang aktibong window ng limitasyon ng Codex. Binabasa ang paggamit mula sa lokal na mga log ng session ng Codex — magsimula o magpatuloy ng session at lilitaw ito rito."),
        ("Open Codex Usage →", "Buksan ang paggamit ng Codex →"),
        ("Midnight", "Hatinggabi"),
        ("Sunset", "Paglubog ng araw"),
        ("Show Codex section", "Ipakita ang seksyong Codex"),
        ("Reopen the tray popup to refresh", "Buksang muli ang popup para mag-refresh"),
        ("Show startup notification", "Ipakita ang abiso sa pagsisimula"),
        ("Show login expiry warning", "Babala kapag mag-e-expire ang login"),
        ("Alert thresholds", "Mga threshold ng alerto"),
        ("Notification sound", "Tunog ng abiso"),
        ("Test notification", "Pagsubok na abiso"),
        ("Send", "Ipadala"),
        ("pace_projection", "Bilis: patungo sa ~{}% sa pag-reset"),
        ("pace_too_early", "Bilis: masyadong maaga pang mahulaan"),
        ("Open Config", "Buksan ang config"),
        ("Export Config", "I-export ang config..."),
        ("Import Config", "I-import ang config..."),
        ("Enable Autostart", "Paganahin ang autostart"),
        ("Disable Autostart", "Huwag paganahin ang autostart"),
        ("Open Logs", "Buksan ang mga log"),
        ("Quit", "Umalis"),
        ("Freshness", "Pagiging sariwa"),
        ("Live", "Live"),
        ("Cached", "Mula sa cache / wala pang datos ng API"),
        ("api_error", "Error sa API"),
        ("Refreshing", "Nagre-refresh..."),
        ("time_ago", "{} ang nakalipas"),
        ("latest_version", "Ginagamit mo ang pinakabagong bersyon."),
        ("update_check_failed", "Hindi masuri ang mga update."),
    ];
    assert(super::entries_view(r@) =~= table());
    r
}

} // verus!
