# tipjar_sdk

Transaction simulation, previews and fee estimates for the TipJar contract,
verified with Verus.

- `src/simulation/simulator.rs`: simulates tips, withdrawals and batches of tips.
- `src/simulation/preview.rs`: human-readable previews of simulated transactions.
- `src/simulation/cost_calculator.rs`: fee estimates in stroops.
- `src/simulation/laws.rs`: properties that tie these together.
- `src/text.rs`: decimal rendering of integers, string comparison, `Debug` lists.
- `src/analytics.rs`: period labels, CSV export records and the JSON exports of the tip analytics.
- `app/`: serde-enabled copies of the records, XLM figures in floating point, and the
  PostgreSQL-backed analytics (collector, aggregator, exporter).
