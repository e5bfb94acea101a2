//! Spanish translations of the interface strings, keyed by their English
//! text (or by a stable identifier for longer messages).
//!
//! The entries whose key or text names the vendor's assistant product (its
//! name, its install and sign-in prompts) are not held here; like any other
//! missing key they fall back to English, then to the key itself.

use vstd::prelude::*;

verus! {
/// The Spanish table, in insertion order.
pub open spec fn table() -> Seq<(Seq<char>, Seq<char>)> {
    seq![
        ("5-hour session"@, "Sesión de 5 horas"@),
        ("Weekly (7-day)"@, "Semanal (7 días)"@),
        ("Opus (7-day)"@, "Opus (7 días)"@),
        ("Sonnet (7-day)"@, "Sonnet (7 días)"@),
        ("OAuth Apps (7-day)"@, "OAuth Apps (7 días)"@),
        ("resets in"@, "se restablece en"@),
        ("Plan"@, "Plan"@),
        ("Pro"@, "Pro"@),
        ("Max"@, "Max"@),
        ("credentials_not_found"@, "Credenciales no encontradas"@),
        ("openai_no_api"@, "OpenAI no proporciona una API para rastrear el uso de la suscripción de ChatGPT."@),
        ("Check your usage manually:"@, "Compruebe su uso manualmente:"@),
        ("Open ChatGPT Usage \u{2192}"@, "Abrir uso de ChatGPT \u{2192}"@),
        ("Refresh Now"@, "Actualizar ahora"@),
        ("Open Dashboard"@, "Abrir panel"@),
        ("Export History (CSV)"@, "Exportar historial (CSV)"@),
        ("Settings"@, "Configuración"@),
        ("Start with Windows"@, "Iniciar con Windows"@),
        ("About"@, "Acerca de"@),
        ("Exit"@, "Salir"@),
        ("Last updated:"@, "Última actualización:"@),
        ("Refresh"@, "Actualizar"@),
        ("Usage Alert"@, "Alerta de uso"@),
        ("Usage Critical"@, "Uso crítico"@),
        ("Running in system tray. Click the icon for details."@, "Ejecutándose en la bandeja del sistema. Haz clic en el icono para más detalles."@),
        ("Compact mode"@, "Modo compacto"@),
        ("Theme"@, "Tema"@),
        ("Language"@, "Idioma"@),
        ("Notifications"@, "Notificaciones"@),
        ("Dark"@, "Oscuro"@),
        ("Light"@, "Claro"@),
        ("Auto"@, "Auto"@),
        ("Show ChatGPT section"@, "Mostrar sección ChatGPT"@),
        ("Enabled"@, "Activado"@),
        ("Sound"@, "Sonido"@),
        ("Thresholds"@, "Umbrales"@),
        ("Polling interval"@, "Intervalo de actualización"@),
        ("seconds"@, "segundos"@),
        ("Startup"@, "Inicio"@),
        ("General"@, "General"@),
        ("Back"@, "\u{2190} Volver"@),
        ("ClaudeMeter"@, "ClaudeMeter"@),
        ("CHATGPT / CODEX"@, "CHATGPT / CODEX"@),
        ("Usage History (24h)"@, "Historial de uso (24h)"@),
        ("Auto (English)"@, "Auto (Español)"@),
        ("at"@, "a las"@),
        ("Resets in"@, "Se restablece en"@),
        ("Tray icon colors:"@, "Colores del icono:"@),
        ("< 50% usage"@, "< 50% uso"@),
        ("50-79% usage"@, "50\u{2013}79% uso"@),
        (">= 80% usage"@, "\u{2265} 80% uso"@),
        ("No data"@, "Sin datos"@),
        ("exceeded"@, "superado"@),
    ]
}

/// The Spanish translation table.
pub fn strings() -> (r: Vec<(&'static str, &'static str)>)
    ensures
        super::entries_view(r@) == table(),
{
    let r = vec![
        ("5-hour session", "Sesión de 5 horas"),
        ("Weekly (7-day)", "Semanal (7 días)"),
        ("Opus (7-day)", "Opus (7 días)"),
        ("Sonnet (7-day)", "Sonnet (7 días)"),
        ("OAuth Apps (7-day)", "OAuth Apps (7 días)"),
        ("resets in", "se restablece en"),
        ("Plan", "Plan"),
        ("Pro", "Pro"),
        ("Max", "Max"),
        ("credentials_not_found", "Credenciales no encontradas"),
        ("openai_no_api", "OpenAI no proporciona una API para rastrear el uso de la suscripción de ChatGPT."),
        ("Check your usage manually:", "Compruebe su uso manualmente:"),
        ("Open ChatGPT Usage \u{2192}", "Abrir uso de ChatGPT \u{2192}"),
        ("Refresh Now", "Actualizar ahora"),
        ("Open Dashboard", "Abrir panel"),
        ("Export History (CSV)", "Exportar historial (CSV)"),
        ("Settings", "Configuración"),
        ("Start with Windows", "Iniciar con Windows"),
        ("About", "Acerca de"),
        ("Exit", "Salir"),
        ("Last updated:", "Última actualización:"),
        ("Refresh", "Actualizar"),
        ("Usage Alert", "Alerta de uso"),
        ("Usage Critical", "Uso crítico"),
        ("Running in system tray. Click the icon for details.", "Ejecutándose en la bandeja del sistema. Haz clic en el icono para más detalles."),
        ("Compact mode", "Modo compacto"),
        ("Theme", "Tema"),
        ("Language", "Idioma"),
        ("Notifications", "Notificaciones"),
        ("Dark", "Oscuro"),
        ("Light", "Claro"),
        ("Auto", "Auto"),
        ("Show ChatGPT section", "Mostrar sección ChatGPT"),
        ("Enabled", "Activado"),
        ("Sound", "Sonido"),
        ("Thresholds", "Umbrales"),
        ("Polling interval", "Intervalo de actualización"),
        ("seconds", "segundos"),
        ("Startup", "Inicio"),
        ("General", "General"),
        ("Back", "\u{2190} Volver"),
        ("ClaudeMeter", "ClaudeMeter"),
        ("CHATGPT / CODEX", "CHATGPT / CODEX"),
        ("Usage History (24h)", "Historial de uso (24h)"),
        ("Auto (English)", "Auto (Español)"),
        ("at", "a las"),
        ("Resets in", "Se restablece en"),
        ("Tray icon colors:", "Colores del icono:"),
        ("< 50% usage", "< 50% uso"),
        ("50-79% usage", "50\u{2013}79% uso"),
        (">= 80% usage", "\u{2265} 80% uso"),
        ("No data", "Sin datos"),
        ("exceeded", "superado"),
    ];
    assert(super::entries_view(r@) =~= table());
    r
}

} // verus!
