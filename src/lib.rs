//! A transparent TCP relay: the listen address and settings from the
//! command line, and for each connection the session's decisions and its
//! two byte pumps, coupled by a cancellation signal.

mod address;
mod config;
mod laws;
mod pump;
mod relay;
mod session;

pub use address::{bind_address, bind_address_text, digit_char, int_text, nat_digits};
pub use config::{
    all_digits, decimal_value, digit_value, digits_value, i32_value, is_digit, parse_i32, Config,
    ConfigError,
};
pub use laws::{
    joined, lemma_stream_relayed_exactly, relays_round, lemma_clean_end_is_exact, lemma_end_of_stream_fires, lemma_reset_is_end_of_stream,
    lemma_round_relays_chunk, lemma_signal_ends_sibling,
};
pub use pump::{
    is_benign, Direction, FailureKind, Phase, Pump, PumpAction, PumpError, ReadOutcome, BUF_SIZE,
};
pub use relay::{subscribed, Relay};
pub use session::{
    close_session, open_session, option_seq, pump_report, report_of, reports_of, Report,
};
