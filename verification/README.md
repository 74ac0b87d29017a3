# unified_trading

The decision logic of a trading engine, written in Verus: the functions of the library carry
contracts that the verifier proves.

- `src/` is the library: settings and their rules, the kill switch, heartbeats, counters, the
  journal and recovery from it, orders and their states, rate limits, processed intents, the
  portfolio, features, the tick reactor, the control interface and the engine that ties them
  together.
- `tests/` holds scenarios on concrete values.
- `app/` is the program around the library: files, threads, sockets, floating point, and the
  ports to a broker, a feed, models, strategies and risk checks. Without a linked service the
  program runs but trades nothing.

Two conventions run through the library.

- Real numbers are bit patterns (`quantity::Real`). The library orders and tests them; sums,
  products and quotients are computed by the caller and handed in as figures.
- What depends on chance, time or another thread comes in as a value. A function that makes such
  a call states what holds whatever came back, and beside it stands one that takes the outcome as
  an argument and says exactly what follows.

Laws that relate several functions are public proof functions whose names begin with `law_`.
