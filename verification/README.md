# qaexchange

The core of a futures exchange, verified with Verus: it takes orders in, has them
checked, routes them to the matching engine, handles what comes back, cancels and
restores orders, and answers the clients of the web service.

The core holds no service of its own. A request becomes a flow: `pending` says
what the flow asks, and `answer` takes the reply and goes on, until a response is
there. The application under `app/` runs the flows against its services.

Prices, volumes and sums of money are whole numbers of ten-thousandths; turnovers
and the price of a tick are whole numbers of hundred-millionths.

| module | what it holds |
| --- | --- |
| `conditions`, `orders`, `amounts`, `text` | conditions, orders and statuses; money; texts |
| `book`, `protocol` | order books; questions, replies and effects |
| `tables`, `clock` | the concurrent tables and the clocks, behind contracts |
| `router` | the router: `submission`, `matching`, `cancelling`, `restoring`, `flushing`, `queries` |
| `router::laws`, `router::agreement`, `router::progress`, `router::repeating` | what holds of the router as a whole |
| `account` | money and frozen money of an account |
| `service` | accounts, orders, batches, transfers, trades, positions and equity over the web |
| `broadcast`, `metrics` | the market data feed; the catalogue of metrics |

`tests/` runs the library with the crates it depends on.
