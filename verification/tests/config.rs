use zircon::Mode;
use zircon::ZirconConfig;

#[test]
fn mode_from_str_reads_both_modes() {
    assert_eq!(Mode::from_str("dev"), Ok(Mode::Dev));
    assert_eq!(Mode::from_str("prod"), Ok(Mode::Prod));
}

#[test]
fn mode_from_str_ignores_ascii_case() {
    assert_eq!(Mode::from_str("DEV"), Ok(Mode::Dev));
    assert_eq!(Mode::from_str("Prod"), Ok(Mode::Prod));
    assert_eq!(Mode::from_str("pRoD"), Ok(Mode::Prod));
}

#[test]
fn mode_from_str_rejects_other_text() {
    assert_eq!(
        Mode::from_str("Staging"),
        Err("cannot convert to mode: Staging".to_string())
    );
    assert_eq!(Mode::from_str(""), Err("cannot convert to mode: ".to_string()));
    assert_eq!(
        Mode::from_str("dev "),
        Err("cannot convert to mode: dev ".to_string())
    );
}

#[test]
fn mode_to_string_round_trips() {
    assert_eq!(Mode::Dev.to_string(), "dev");
    assert_eq!(Mode::Prod.to_string(), "prod");
    assert_eq!(Mode::from_str(&Mode::Dev.to_string()), Ok(Mode::Dev));
    assert_eq!(Mode::from_str(&Mode::Prod.to_string()), Ok(Mode::Prod));
}

#[test]
fn dev_defaults() {
    let c = ZirconConfig::dev();
    assert!(c.mode() == Mode::Dev);
    assert_eq!(c.num_accept_threads(), 1);
    assert_eq!(c.num_cpu_threads(), 4);
    assert!(!c.respect_xforwarded());
}

#[test]
fn prod_defaults() {
    let c = ZirconConfig::prod();
    assert!(c.mode() == Mode::Prod);
    assert_eq!(c.num_accept_threads(), 4);
    assert_eq!(c.num_cpu_threads(), 16);
    assert!(!c.respect_xforwarded());
}

#[test]
fn from_mode_agrees_with_named_constructors() {
    let d = ZirconConfig::from_mode(Mode::Dev);
    assert_eq!(d.num_accept_threads(), ZirconConfig::dev().num_accept_threads());
    assert_eq!(d.num_cpu_threads(), ZirconConfig::dev().num_cpu_threads());
    let p = ZirconConfig::from_mode(Mode::Prod);
    assert_eq!(p.num_accept_threads(), ZirconConfig::prod().num_accept_threads());
    assert_eq!(p.num_cpu_threads(), ZirconConfig::prod().num_cpu_threads());
}

#[test]
fn builders_change_one_field_each() {
    let c = ZirconConfig::dev()
        .with_num_accept_threads(7)
        .with_num_cpu_threads(9)
        .with_respect_xforwarded(true);
    assert!(c.mode() == Mode::Dev);
    assert_eq!(c.num_accept_threads(), 7);
    assert_eq!(c.num_cpu_threads(), 9);
    assert!(c.respect_xforwarded());
    let d = c.with_respect_xforwarded(false);
    assert_eq!(d.num_accept_threads(), 7);
    assert_eq!(d.num_cpu_threads(), 9);
    assert!(!d.respect_xforwarded());
}

#[test]
fn templates_are_reloaded_outside_production() {
    assert!(Mode::Dev.reloads_templates());
    assert!(!Mode::Prod.reloads_templates());
}
