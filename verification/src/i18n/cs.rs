//! Czech translations of the interface strings, keyed by their English
//! text (or by a stable identifier for longer messages).
//!
//! The entries whose key or text names the vendor's assistant product (its
//! name, its install and sign-in prompts) are not held here; like any other
//! missing key they fall back to English, then to the key itself.

use vstd::prelude::*;

verus! {
/// The Czech table, in insertion order.
pub open spec fn table() -> Seq<(Seq<char>, Seq<char>)> {
    seq![
        ("5-hour session"@, "5hodinová relace"@),
        ("Weekly (7-day)"@, "Týdenní (7 dní)"@),
        ("Opus (7-day)"@, "Opus (7 dní)"@),
        ("Sonnet (7-day)"@, "Sonnet (7 dní)"@),
        ("OAuth Apps (7-day)"@, "OAuth Apps (7 dní)"@),
        ("resets in"@, "resetuje se za"@),
        ("Plan"@, "Plán"@),
        ("Pro"@, "Pro"@),
        ("Max"@, "Max"@),
        ("credentials_not_found"@, "Přihlašovací údaje nenalezeny"@),
        ("connection_error"@, "Chyba připojení"@),
        ("token_expired"@, "Token vypršel"@),
        ("rate_limited"@, "Limit požadavků"@),
        ("server_error"@, "Chyba serveru"@),
        ("server_error_desc"@, "Anthropic API je dočasně nedostupné. Automaticky se pokusí znovu."@),
        ("openai_no_api"@, "OpenAI neposkytuje API pro sledování využití předplatného ChatGPT."@),
        ("Check your usage manually:"@, "Zkontrolujte využití ručně:"@),
        ("Open ChatGPT Usage \u{2192}"@, "Otevřít využití ChatGPT \u{2192}"@),
        ("Refresh Now"@, "Obnovit nyní"@),
        ("Open Dashboard"@, "Otevřít panel"@),
        ("Export History (CSV)"@, "Exportovat historii (CSV)"@),
        ("Export History (JSON)"@, "Exportovat historii (JSON)"@),
        ("Show extra usage"@, "Zobrazit extra využití"@),
        ("Show model limits"@, "Zobrazit limity model\u{16f}"@),
        ("Usage link icons"@, "Ikony odkazů využití"@),
        ("Open usage"@, "Otevřít využití"@),
        ("Service status"@, "Stav služby"@),
        ("CODEX"@, "CODEX"@),
        ("Settings"@, "Nastavení"@),
        ("Start with Windows"@, "Spustit s Windows"@),
        ("About"@, "O aplikaci"@),
        ("Exit"@, "Ukončit"@),
        ("Last updated:"@, "Poslední aktualizace:"@),
        ("Refresh"@, "Obnovit"@),
        ("Status"@, "Stav"@),
        ("Usage Alert"@, "Upozornění na využití"@),
        ("Usage Critical"@, "Kritické využití"@),
        ("Running in system tray. Click the icon for details."@, "Běží v systémové liště. Klikněte na ikonu pro podrobnosti."@),
        ("Compact mode"@, "Kompaktní režim"@),
        ("Theme"@, "Motiv"@),
        ("Language"@, "Jazyk"@),
        ("Notifications"@, "Oznámení"@),
        ("Dark"@, "Tmavý"@),
        ("Light"@, "Světlý"@),
        ("Auto"@, "Automaticky"@),
        ("Show ChatGPT section"@, "Zobrazit sekci ChatGPT"@),
        ("Enabled"@, "Povoleno"@),
        ("Sound"@, "Zvuk"@),
        ("Thresholds"@, "Prahové hodnoty"@),
        ("Polling interval"@, "Interval aktualizace"@),
        ("seconds"@, "sekund"@),
        ("Startup"@, "Spuštění"@),
        ("General"@, "Obecné"@),
        ("Back"@, "\u{2190} Zpět"@),
        ("ClaudeMeter"@, "ClaudeMeter"@),
        ("CHATGPT / CODEX"@, "CHATGPT / CODEX"@),
        ("Usage History"@, "Historie využití"@),
        ("Usage History (24h)"@, "Historie využití (24h)"@),
        ("Auto (English)"@, "Automaticky (Čeština)"@),
        ("at"@, "na"@),
        ("Resets in"@, "Resetuje se za"@),
        ("Tray icon colors:"@, "Barvy ikony v liště:"@),
        ("< 50% usage"@, "< 50% využití"@),
        ("50-79% usage"@, "50\u{2013}79% využití"@),
        (">= 80% usage"@, "\u{2265} 80% využití"@),
        ("No data"@, "Žádná data"@),
        ("exceeded"@, "překročeno"@),
        ("Show widget"@, "Zobrazit widget"@),
        ("Check for updates"@, "Kontrolovat aktualizace"@),
        ("Accessibility patterns"@, "Vzory přístupnosti"@),
        ("Update available"@, "Dostupná aktualizace"@),
        ("is available. Click to download."@, "je k dispozici. Klikněte pro stažení."@),
        ("Icon style"@, "Styl ikony"@),
        ("Number"@, "Číslo"@),
        ("Ring"@, "Kroužek"@),
        ("Bar"@, "Sloupec"@),
        ("Pie"@, "Koláčový"@),
        ("Dashboard layout"@, "Rozložení panelu"@),
        ("Minimal"@, "Minimální"@),
        ("Standard"@, "Standardní"@),
        ("Detailed"@, "Podrobný"@),
        ("Hide Extra Usage"@, "Skrýt Extra Usage"@),
        ("stale_token_expired"@, "Neaktuální — token vypršel"@),
        ("stale_data"@, "Neaktuální — poslední známé"@),
        ("codex_no_data"@, "Žádné aktivní okno limitů Codexu. Využití se načítá z místních záznamů relací Codexu — spusťte nebo pokračujte v relaci a objeví se zde."@),
        ("Open Codex Usage →"@, "Otevřít využití Codexu →"@),
        ("Midnight"@, "Půlnoc"@),
        ("Sunset"@, "Západ slunce"@),
        ("Show Codex section"@, "Zobrazit sekci Codex"@),
        ("Reopen the tray popup to refresh"@, "Pro obnovení znovu otevřete okno"@),
        ("Show startup notification"@, "Zobrazit oznámení při spuštění"@),
        ("Show login expiry warning"@, "Upozornit na vypršení přihlášení"@),
        ("Alert thresholds"@, "Prahy upozornění"@),
        ("Notification sound"@, "Zvuk oznámení"@),
        ("Test notification"@, "Testovací oznámení"@),
        ("Send"@, "Odeslat"@),
        ("pace_projection"@, "Tempo: směřuje k ~{}% do resetu"@),
        ("pace_too_early"@, "Tempo: zatím příliš brzy na odhad"@),
        ("Open Config"@, "Otevřít konfiguraci"@),
        ("Export Config"@, "Exportovat konfiguraci..."@),
        ("Import Config"@, "Importovat konfiguraci..."@),
        ("Enable Autostart"@, "Zapnout automatické spuštění"@),
        ("Disable Autostart"@, "Vypnout automatické spuštění"@),
        ("Open Logs"@, "Otevřít protokoly"@),
        ("Quit"@, "Ukončit"@),
        ("Freshness"@, "Aktuálnost"@),
        ("Live"@, "Živě"@),
        ("Cached"@, "Z mezipaměti / zatím žádná data z API"@),
        ("api_error"@, "Chyba API"@),
        ("Refreshing"@, "Aktualizuji..."@),
        ("time_ago"@, "před {}"@),
        ("latest_version"@, "Máte nejnovější verzi."@),
        ("update_check_failed"@, "Kontrola aktualizací se nezdařila."@),
    ]
}

/// The Czech translation table.
pub fn strings() -> (r: Vec<(&'static str, &'static str)>)
    ensures
        super::entries_view(r@) == table(),
{
    let r = vec![
        ("5-hour session", "5hodinová relace"),
        ("Weekly (7-day)", "Týdenní (7 dní)"),
        ("Opus (7-day)", "Opus (7 dní)"),
        ("Sonnet (7-day)", "Sonnet (7 dní)"),
        ("OAuth Apps (7-day)", "OAuth Apps (7 dní)"),
        ("resets in", "resetuje se za"),
        ("Plan", "Plán"),
        ("Pro", "Pro"),
        ("Max", "Max"),
        ("credentials_not_found", "Přihlašovací údaje nenalezeny"),
        ("connection_error", "Chyba připojení"),
        ("token_expired", "Token vypršel"),
        ("rate_limited", "Limit požadavků"),
        ("server_error", "Chyba serveru"),
        ("server_error_desc", "Anthropic API je dočasně nedostupné. Automaticky se pokusí znovu."),
        ("openai_no_api", "OpenAI neposkytuje API pro sledování využití předplatného ChatGPT."),
        ("Check your usage manually:", "Zkontrolujte využití ručně:"),
        ("Open ChatGPT Usage \u{2192}", "Otevřít využití ChatGPT \u{2192}"),
        ("Refresh Now", "Obnovit nyní"),
        ("Open Dashboard", "Otevřít panel"),
        ("Export History (CSV)", "Exportovat historii (CSV)"),
        ("Export History (JSON)", "Exportovat historii (JSON)"),
        ("Show extra usage", "Zobrazit extra využití"),
        ("Show model limits", "Zobrazit limity model\u{16f}"),
        ("Usage link icons", "Ikony odkazů využití"),
        ("Open usage", "Otevřít využití"),
        ("Service status", "Stav služby"),
        ("CODEX", "CODEX"),
        ("Settings", "Nastavení"),
        ("Start with Windows", "Spustit s Windows"),
        ("About", "O aplikaci"),
        ("Exit", "Ukončit"),
        ("Last updated:", "Poslední aktualizace:"),
        ("Refresh", "Obnovit"),
        ("Status", "Stav"),
        ("Usage Alert", "Upozornění na využití"),
        ("Usage Critical", "Kritické využití"),
        ("Running in system tray. Click the icon for details.", "Běží v systémové liště. Klikněte na ikonu pro podrobnosti."),
        ("Compact mode", "Kompaktní režim"),
        ("Theme", "Motiv"),
        ("Language", "Jazyk"),
        ("Notifications", "Oznámení"),
        ("Dark", "Tmavý"),
        ("Light", "Světlý"),
        ("Auto", "Automaticky"),
        ("Show ChatGPT section", "Zobrazit sekci ChatGPT"),
        ("Enabled", "Povoleno"),
        ("Sound", "Zvuk"),
        ("Thresholds", "Prahové hodnoty"),
        ("Polling interval", "Interval aktualizace"),
        ("seconds", "sekund"),
        ("Startup", "Spuštění"),
        ("General", "Obecné"),
        ("Back", "\u{2190} Zpět"),
        ("ClaudeMeter", "ClaudeMeter"),
        ("CHATGPT / CODEX", "CHATGPT / CODEX"),
        ("Usage History", "Historie využití"),
        ("Usage History (24h)", "Historie využití (24h)"),
        ("Auto (English)", "Automaticky (Čeština)"),
        ("at", "na"),
        ("Resets in", "Resetuje se za"),
        ("Tray icon colors:", "Barvy ikony v liště:"),
        ("< 50% usage", "< 50% využití"),
        ("50-79% usage", "50\u{2013}79% využití"),
        (">= 80% usage", "\u{2265} 80% využití"),
        ("No data", "Žádná data"),
        ("exceeded", "překročeno"),
        ("Show widget", "Zobrazit widget"),
        ("Check for updates", "Kontrolovat aktualizace"),
        ("Accessibility patterns", "Vzory přístupnosti"),
        ("Update available", "Dostupná aktualizace"),
        ("is available. Click to download.", "je k dispozici. Klikněte pro stažení."),
        ("Icon style", "Styl ikony"),
        ("Number", "Číslo"),
        ("Ring", "Kroužek"),
        ("Bar", "Sloupec"),
        ("Pie", "Koláčový"),
        ("Dashboard layout", "Rozložení panelu"),
        ("Minimal", "Minimální"),
        ("Standard", "Standardní"),
        ("Detailed", "Podrobný"),
        ("Hide Extra Usage", "Skrýt Extra Usage"),
        ("stale_token_expired", "Neaktuální — token vypršel"),
        ("stale_data", "Neaktuální — poslední známé"),
        ("codex_no_data", "Žádné aktivní okno limitů Codexu. Využití se načítá z místních záznamů relací Codexu — spusťte nebo pokračujte v relaci a objeví se zde."),
        ("Open Codex Usage →", "Otevřít využití Codexu →"),
        ("Midnight", "Půlnoc"),
        ("Sunset", "Západ slunce"),
        ("Show Codex section", "Zobrazit sekci Codex"),
        ("Reopen the tray popup to refresh", "Pro obnovení znovu otevřete okno"),
        ("Show startup notification", "Zobrazit oznámení při spuštění"),
        ("Show login expiry warning", "Upozornit na vypršení přihlášení"),
        ("Alert thresholds", "Prahy upozornění"),
        ("Notification sound", "Zvuk oznámení"),
        ("Test notification", "Testovací oznámení"),
        ("Send", "Odeslat"),
        ("pace_projection", "Tempo: směřuje k ~{}% do resetu"),
        ("pace_too_early", "Tempo: zatím příliš brzy na odhad"),
        ("Open Config", "Otevřít konfiguraci"),
        ("Export Config", "Exportovat konfiguraci..."),
        ("Import Config", "Importovat konfiguraci..."),
        ("Enable Autostart", "Zapnout automatické spuštění"),
        ("Disable Autostart", "Vypnout automatické spuštění"),
        ("Open Logs", "Otevřít protokoly"),
        ("Quit", "Ukončit"),
        ("Freshness", "Aktuálnost"),
        ("Live", "Živě"),
        ("Cached", "Z mezipaměti / zatím žádná data z API"),
        ("api_error", "Chyba API"),
        ("Refreshing", "Aktualizuji..."),
        ("time_ago", "před {}"),
        ("latest_version", "Máte nejnovější verzi."),
        ("update_check_failed", "Kontrola aktualizací se nezdařila."),
    ];
    assert(super::entries_view(r@) =~= table());
    r
}

} // verus!
