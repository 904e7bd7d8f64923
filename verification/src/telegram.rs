use vstd::prelude::*;
use crate::text::{
    push_fixed1, push_fixed2, push_idec, push_str, push_udec, spec_fixed1, spec_fixed2, spec_idec,
    spec_udec,
};

verus! {

/// Telegram delivery settings; credentials come from the process
/// environment outside the library.
#[derive(Clone, Debug)]
pub struct TelegramConfig {
    pub bot_token: String,
    pub chat_id: String,
    pub enabled: bool,
}

/// What `lower_of` stands for: the lowercase form a string folds to.
pub uninterp spec fn lower_of(s: Seq<char>) -> Seq<char>;

/// Relies on std's str::to_lowercase: the result depends on the
/// characters of the input alone.
#[verifier::external_body]
fn to_lowercase(s: &str) -> (r: String)
    ensures
        r@ == lower_of(s@),
{
    s.to_lowercase()
}

/// Read an enablement flag the way the environment variable is written:
/// `"1"` or any casing of `"true"` enables, everything else disables.
pub fn enabled_flag(v: &str) -> (b: bool)
    ensures
        b == (v@ == "1"@ || lower_of(v@) == "true"@),
{
    if v.to_owned() == "1".to_owned() {
        true
    } else {
        let lowered = to_lowercase(v);
        lowered == "true".to_owned()
    }
}

/// Relies on chrono's Local::now, rendered as `%Y-%m-%d %H:%M:%S`:
/// the wall-clock reading at the moment of the call.
#[verifier::external_body]
fn local_now_string() -> (r: String) {
    chrono::Local::now().format("%Y-%m-%d %H:%M:%S").to_string()
}

/// Events the core reports to the notification channel.
///
/// All money amounts are integer cents and the uptime is in tenths of an
/// hour, so every field renders exactly.
#[derive(Clone, Debug)]
pub enum TelegramNotification {
    BotStarted { mode: String, markets_count: usize },
    OpportunityDetected {
        market: String,
        yes_price: u16,
        no_price: u16,
        profit_cents: i16,
        arb_type: String,
    },
    TradeExecuted { market: String, contracts: i64, profit_cents: i16, success: bool, latency_ms: u64 },
    StatusUpdate {
        uptime_tenth_hours: u64,
        total_trades: u64,
        successful_trades: u64,
        total_profit_cents: i64,
        markets_monitored: usize,
    },
    Error { message: String },
    BotStopped { reason: String },
}

/// Success rate in tenths of a percent, zero when nothing traded yet.
pub open spec fn spec_rate_tenths(successful: nat, total: nat) -> nat {
    if total == 0 {
        0
    } else {
        successful * 1000 / total
    }
}

impl TelegramNotification {
    /// A status report never counts more successes than trades.
    pub open spec fn wf(self) -> bool {
        self matches TelegramNotification::StatusUpdate {
            total_trades,
            successful_trades,
            ..
        } ==> successful_trades <= total_trades
    }
}

/// The exact message a notification renders to, given the timestamp text
/// the message embeds.
pub open spec fn spec_render(n: TelegramNotification, time: Seq<char>) -> Seq<char> {
    match n {
        TelegramNotification::BotStarted { mode, markets_count } => {
            "🚀 <b>Bot Arbitrage Démarré</b>\n\n📊 Mode: <code>"@ + mode@
                + "</code>\n🎯 Marchés surveillés: <b>"@ + spec_udec(markets_count as nat)
                + "</b>\n⏰ Heure: "@ + time
        },
        TelegramNotification::OpportunityDetected {
            market,
            yes_price,
            no_price,
            profit_cents,
            arb_type,
        } => {
            "🎯 <b>Opportunité Détectée!</b>\n\n📈 Marché: <code>"@ + market@
                + "</code>\n💰 YES: "@ + spec_udec(yes_price as nat) + "¢ | NO: "@ + spec_udec(
                no_price as nat,
            ) + "¢\n💵 Profit: <b>"@ + spec_idec(profit_cents as int) + "¢ ("@ + spec_fixed2(
                profit_cents as int,
            ) + "%)</b>\n🔄 Type: "@ + arb_type@
        },
        TelegramNotification::TradeExecuted {
            market,
            contracts,
            profit_cents,
            success,
            latency_ms,
        } => {
            (if success {
                "✅ <b>Trade SUCCÈS</b>\n\n📈 Marché: <code>"@
            } else {
                "❌ <b>Trade ÉCHEC</b>\n\n📈 Marché: <code>"@
            }) + market@ + "</code>\n📦 Contrats: <b>"@ + spec_idec(contracts as int)
                + "</b>\n💵 Profit: <b>"@ + spec_idec(profit_cents as int) + "¢</b>\n⚡ Latence: "@
                + spec_udec(latency_ms as nat) + "ms"@
        },
        TelegramNotification::StatusUpdate {
            uptime_tenth_hours,
            total_trades,
            successful_trades,
            total_profit_cents,
            markets_monitored,
        } => {
            "📊 <b>Rapport de Statut</b>\n\n⏱ Uptime: <b>"@ + spec_fixed1(
                uptime_tenth_hours as nat,
            ) + "h</b>\n🎯 Marchés: "@ + spec_udec(markets_monitored as nat)
                + "\n📈 Trades: "@ + spec_udec(successful_trades as nat) + "/"@ + spec_udec(
                total_trades as nat,
            ) + " ("@ + spec_fixed1(spec_rate_tenths(successful_trades as nat, total_trades as nat))
                + "% succès)\n💰 Profit Total: <b>$"@ + spec_fixed2(total_profit_cents as int)
                + "</b>\n⏰ "@ + time
        },
        TelegramNotification::Error { message } => {
            "⚠️ <b>Erreur Détectée</b>\n\n<code>"@ + message@ + "</code>\n⏰ "@ + time
        },
        TelegramNotification::BotStopped { reason } => {
            "🛑 <b>Bot Arrêté</b>\n\n📝 Raison: "@ + reason@ + "\n⏰ "@ + time
        },
    }
}

/// Render a notification into the message text that is sent, embedding
/// the given timestamp text.
pub fn render_notification(n: &TelegramNotification, time: &str) -> (r: String)
    requires
        n.wf(),
    ensures
        r@ == spec_render(*n, time@),
{
    let mut s = String::new();
    match n {
        TelegramNotification::BotStarted { mode, markets_count } => {
            push_str(&mut s, "🚀 <b>Bot Arbitrage Démarré</b>\n\n📊 Mode: <code>");
            push_str(&mut s, mode.as_str());
            push_str(&mut s, "</code>\n🎯 Marchés surveillés: <b>");
            push_udec(&mut s, *markets_count as u64);
            push_str(&mut s, "</b>\n⏰ Heure: ");
            push_str(&mut s, time);
        },
        TelegramNotification::OpportunityDetected {
            market,
            yes_price,
            no_price,
            profit_cents,
            arb_type,
        } => {
            push_str(&mut s, "🎯 <b>Opportunité Détectée!</b>\n\n📈 Marché: <code>");
            push_str(&mut s, market.as_str());
            push_str(&mut s, "</code>\n💰 YES: ");
            push_udec(&mut s, *yes_price as u64);
            push_str(&mut s, "¢ | NO: ");
            push_udec(&mut s, *no_price as u64);
            push_str(&mut s, "¢\n💵 Profit: <b>");
            push_idec(&mut s, *profit_cents as i64);
            push_str(&mut s, "¢ (");
            push_fixed2(&mut s, *profit_cents as i64);
            push_str(&mut s, "%)</b>\n🔄 Type: ");
            push_str(&mut s, arb_type.as_str());
        },
        TelegramNotification::TradeExecuted {
            market,
            contracts,
            profit_cents,
            success,
            latency_ms,
        } => {
            if *success {
                push_str(&mut s, "✅ <b>Trade SUCCÈS</b>\n\n📈 Marché: <code>");
            } else {
                push_str(&mut s, "❌ <b>Trade ÉCHEC</b>\n\n📈 Marché: <code>");
            }
            push_str(&mut s, market.as_str());
            push_str(&mut s, "</code>\n📦 Contrats: <b>");
            push_idec(&mut s, *contracts);
            push_str(&mut s, "</b>\n💵 Profit: <b>");
            push_idec(&mut s, *profit_cents as i64);
            push_str(&mut s, "¢</b>\n⚡ Latence: ");
            push_udec(&mut s, *latency_ms);
            push_str(&mut s, "ms");
        },
        TelegramNotification::StatusUpdate {
            uptime_tenth_hours,
            total_trades,
            successful_trades,
            total_profit_cents,
            markets_monitored,
        } => {
            push_str(&mut s, "📊 <b>Rapport de Statut</b>\n\n⏱ Uptime: <b>");
            push_fixed1(&mut s, *uptime_tenth_hours);
            push_str(&mut s, "h</b>\n🎯 Marchés: ");
            push_udec(&mut s, *markets_monitored as u64);
            push_str(&mut s, "\n📈 Trades: ");
            push_udec(&mut s, *successful_trades);
            push_str(&mut s, "/");
            push_udec(&mut s, *total_trades);
            push_str(&mut s, " (");
            let rate: u64 = if *total_trades == 0 {
                0
            } else {
                (((*successful_trades as u128) * 1000) / (*total_trades as u128)) as u64
            };
            proof {
                if *total_trades != 0 {
                    assert((successful_trades as nat) * 1000 / (total_trades as nat) <= 1000)
                        by (nonlinear_arith)
                        requires
                            0 < total_trades as nat,
                            successful_trades as nat <= total_trades as nat,
                    ;
                }
                assert(rate as nat == spec_rate_tenths(
                    *successful_trades as nat,
                    *total_trades as nat,
                ));
            }
            push_fixed1(&mut s, rate);
            push_str(&mut s, "% succès)\n💰 Profit Total: <b>$");
            push_fixed2(&mut s, *total_profit_cents);
            push_str(&mut s, "</b>\n⏰ ");
            push_str(&mut s, time);
        },
        TelegramNotification::Error { message } => {
            push_str(&mut s, "⚠️ <b>Erreur Détectée</b>\n\n<code>");
            push_str(&mut s, message.as_str());
            push_str(&mut s, "</code>\n⏰ ");
            push_str(&mut s, time);
        },
        TelegramNotification::BotStopped { reason } => {
            push_str(&mut s, "🛑 <b>Bot Arrêté</b>\n\n📝 Raison: ");
            push_str(&mut s, reason.as_str());
            push_str(&mut s, "\n⏰ ");
            push_str(&mut s, time);
        },
    }
    proof {
        assert(s@ =~= spec_render(*n, time@));
    }
    s
}

/// Render a notification with the current local wall-clock time, as the
/// sender loop does just before delivery.
pub fn format_notification(n: &TelegramNotification) -> (r: String)
    requires
        n.wf(),
    ensures
        exists|time: Seq<char>| r@ == spec_render(*n, time),
{
    let time = local_now_string();
    render_notification(n, time.as_str())
}

/// Running totals of what the bot has seen and done.
pub struct PerformanceTracker {
    pub total_trades: u64,
    pub successful_trades: u64,
    pub total_profit_cents: i64,
    pub opportunities_detected: u64,
}

impl PerformanceTracker {
    /// Counters never report more successes than trades.
    pub open spec fn wf(self) -> bool {
        self.successful_trades <= self.total_trades
    }

    pub fn new() -> (t: PerformanceTracker)
        ensures
            t.wf(),
            t.total_trades == 0,
            t.successful_trades == 0,
            t.total_profit_cents == 0,
            t.opportunities_detected == 0,
    {
        PerformanceTracker {
            total_trades: 0,
            successful_trades: 0,
            total_profit_cents: 0,
            opportunities_detected: 0,
        }
    }

    /// Count one completed trade; only a successful trade contributes
    /// its profit to the running total.
    pub fn record_trade(&mut self, success: bool, profit_cents: i16)
        requires
            old(self).wf(),
            old(self).total_trades < u64::MAX,
            i64::MIN <= old(self).total_profit_cents + profit_cents <= i64::MAX,
        ensures
            final(self).wf(),
            final(self).total_trades == old(self).total_trades + 1,
            final(self).successful_trades == old(self).successful_trades + (if success {
                1int
            } else {
                0int
            }),
            final(self).total_profit_cents == old(self).total_profit_cents + (if success {
                profit_cents as int
            } else {
                0int
            }),
            final(self).opportunities_detected == old(self).opportunities_detected,
    {
        self.total_trades = self.total_trades + 1;
        if success {
            self.successful_trades = self.successful_trades + 1;
            self.total_profit_cents = self.total_profit_cents + (profit_cents as i64);
        }
    }

    /// Count one detected opportunity.
    pub fn record_opportunity(&mut self)
        requires
            old(self).opportunities_detected < u64::MAX,
        ensures
            final(self).opportunities_detected == old(self).opportunities_detected + 1,
            final(self).total_trades == old(self).total_trades,
            final(self).successful_trades == old(self).successful_trades,
            final(self).total_profit_cents == old(self).total_profit_cents,
    {
        self.opportunities_detected = self.opportunities_detected + 1;
    }
}

impl Default for PerformanceTracker {
    fn default() -> (t: PerformanceTracker)
        ensures
            t.wf(),
            t.total_trades == 0,
            t.successful_trades == 0,
            t.total_profit_cents == 0,
            t.opportunities_detected == 0,
    {
        PerformanceTracker::new()
    }
}

} // verus!
