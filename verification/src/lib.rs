pub mod alor_skeleton;
pub mod alor_usdrubf_hybrid;
pub mod market_buy_and_close;
pub mod moex_author41_42;
pub mod sat;
pub mod text;
pub mod clock;
pub mod host;
pub mod idset;
pub mod ri_author41_42_live;
pub mod mock_live_probe;
pub mod hybrid_intraday_runtime;
pub mod ri_live_bar;
pub mod alor_paper_bar;
pub mod alor_warmup;
pub mod alor_on_bar;
pub mod hybrid_on_bar;
