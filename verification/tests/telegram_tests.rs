use arb_core::telegram::{
    enabled_flag, format_notification, render_notification, PerformanceTracker,
    TelegramConfig, TelegramNotification,
};

#[test]
fn enabled_flag_accepts_one_and_true() {
    assert!(enabled_flag("1"));
    assert!(enabled_flag("true"));
    // Case folding comes from the real lowercase conversion: this fails
    // if the input were compared unfolded.
    assert!(enabled_flag("TRUE"));
    assert!(enabled_flag("True"));
    assert!(!enabled_flag("0"));
    assert!(!enabled_flag("false"));
    assert!(!enabled_flag("yes"));
    assert!(!enabled_flag(""));
}

#[test]
fn render_bot_started_exact() {
    let n = TelegramNotification::BotStarted { mode: "live".to_string(), markets_count: 12 };
    let s = render_notification(&n, "2024-01-01 00:00:00");
    assert_eq!(
        s,
        "🚀 <b>Bot Arbitrage Démarré</b>\n\n📊 Mode: <code>live</code>\n🎯 Marchés surveillés: <b>12</b>\n⏰ Heure: 2024-01-01 00:00:00"
    );
}

#[test]
fn render_opportunity_exact() {
    let n = TelegramNotification::OpportunityDetected {
        market: "will-it-rain".to_string(),
        yes_price: 40,
        no_price: 55,
        profit_cents: 3,
        arb_type: "buy-yes-A-buy-no-B".to_string(),
    };
    let s = render_notification(&n, "12:00:00");
    assert_eq!(
        s,
        "🎯 <b>Opportunité Détectée!</b>\n\n📈 Marché: <code>will-it-rain</code>\n💰 YES: 40¢ | NO: 55¢\n💵 Profit: <b>3¢ (0.03%)</b>\n🔄 Type: buy-yes-A-buy-no-B"
    );
}

#[test]
fn render_trade_success_exact() {
    let n = TelegramNotification::TradeExecuted {
        market: "m1".to_string(),
        contracts: 10,
        profit_cents: 30,
        success: true,
        latency_ms: 120,
    };
    let s = render_notification(&n, "12:00:00");
    assert_eq!(
        s,
        "✅ <b>Trade SUCCÈS</b>\n\n📈 Marché: <code>m1</code>\n📦 Contrats: <b>10</b>\n💵 Profit: <b>30¢</b>\n⚡ Latence: 120ms"
    );
}

#[test]
fn render_trade_failure_negative_profit() {
    let n = TelegramNotification::TradeExecuted {
        market: "m1".to_string(),
        contracts: 10,
        profit_cents: -5,
        success: false,
        latency_ms: 2000,
    };
    let s = render_notification(&n, "12:00:00");
    assert_eq!(
        s,
        "❌ <b>Trade ÉCHEC</b>\n\n📈 Marché: <code>m1</code>\n📦 Contrats: <b>10</b>\n💵 Profit: <b>-5¢</b>\n⚡ Latence: 2000ms"
    );
}

#[test]
fn render_status_update_exact() {
    let n = TelegramNotification::StatusUpdate {
        uptime_tenth_hours: 15,
        total_trades: 4,
        successful_trades: 2,
        total_profit_cents: 1234,
        markets_monitored: 7,
    };
    let s = render_notification(&n, "23:59:59");
    assert_eq!(
        s,
        "📊 <b>Rapport de Statut</b>\n\n⏱ Uptime: <b>1.5h</b>\n🎯 Marchés: 7\n📈 Trades: 2/4 (50.0% succès)\n💰 Profit Total: <b>$12.34</b>\n⏰ 23:59:59"
    );
}

#[test]
fn render_status_no_trades_zero_rate() {
    let n = TelegramNotification::StatusUpdate {
        uptime_tenth_hours: 0,
        total_trades: 0,
        successful_trades: 0,
        total_profit_cents: -250,
        markets_monitored: 0,
    };
    let s = render_notification(&n, "00:00:01");
    assert_eq!(
        s,
        "📊 <b>Rapport de Statut</b>\n\n⏱ Uptime: <b>0.0h</b>\n🎯 Marchés: 0\n📈 Trades: 0/0 (0.0% succès)\n💰 Profit Total: <b>$-2.50</b>\n⏰ 00:00:01"
    );
}

#[test]
fn render_error_and_stop_exact() {
    let e = TelegramNotification::Error { message: "venue unreachable".to_string() };
    assert_eq!(
        render_notification(&e, "01:02:03"),
        "⚠️ <b>Erreur Détectée</b>\n\n<code>venue unreachable</code>\n⏰ 01:02:03"
    );
    let st = TelegramNotification::BotStopped { reason: "shutdown signal".to_string() };
    assert_eq!(
        render_notification(&st, "01:02:04"),
        "🛑 <b>Bot Arrêté</b>\n\n📝 Raison: shutdown signal\n⏰ 01:02:04"
    );
}

#[test]
fn format_notification_embeds_clock_time() {
    let n = TelegramNotification::BotStopped { reason: "end".to_string() };
    let s = format_notification(&n);
    assert!(s.starts_with("🛑 <b>Bot Arrêté</b>\n\n📝 Raison: end\n⏰ "));
    // A "%Y-%m-%d %H:%M:%S" timestamp follows the prefix.
    let time = &s[s.rfind('⏰').unwrap()..];
    assert!(time.len() > 2);
}

#[test]
fn performance_tracker_counts() {
    let mut t = PerformanceTracker::new();
    assert_eq!(t.total_trades, 0);
    assert_eq!(t.successful_trades, 0);
    assert_eq!(t.total_profit_cents, 0);
    assert_eq!(t.opportunities_detected, 0);

    t.record_opportunity();
    t.record_trade(true, 30);
    t.record_trade(false, -10);
    t.record_trade(true, 12);

    assert_eq!(t.opportunities_detected, 1);
    assert_eq!(t.total_trades, 3);
    assert_eq!(t.successful_trades, 2);
    // Only successful trades contribute their profit.
    assert_eq!(t.total_profit_cents, 42);
}

#[test]
fn performance_tracker_default_is_zeroed() {
    let t = PerformanceTracker::default();
    assert_eq!(t.total_trades, 0);
    assert_eq!(t.opportunities_detected, 0);
}

#[test]
fn telegram_config_holds_plain_values() {
    let c = TelegramConfig {
        bot_token: "SECRET-REDACTED".to_string(),
        chat_id: "42".to_string(),
        enabled: true,
    };
    let d = c.clone();
    assert_eq!(d.chat_id, "42");
    assert!(d.enabled);
}
