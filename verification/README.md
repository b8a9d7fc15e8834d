# marketschema

A unified schema for financial market data, written in Verus.

- `src/` is the verified library: the schema's validated field types
  (symbols, ISO 4217 currency codes, ISO 10383 market identifier codes,
  `YYYY-MM-DD` dates, expiry series, UTC timestamps, and the enumerations
  such as asset class, side or option type), the `Instrument` and
  `ExpiryInfo` records, and their builders.  Every conversion states
  exactly which text it accepts and what error it gives otherwise.
- `app/` gives these types their JSON form (serde) and holds the market
  data records whose prices, sizes and volumes are `f64` (`Quote`,
  `Trade`, `Ohlcv`, `OrderBook`, `VolumeInfo`, `OptionInfo`,
  `DerivativeInfo`), which the library cannot hold.
- `tests/` runs the library on concrete values.
