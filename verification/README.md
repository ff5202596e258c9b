# json_order_service

The order service of a personal-shopper (jastip) marketplace: buyers
(TITIPERS) order products that sellers (JASTIPER) buy and ship for them.

- `src/` is the verified library. It holds the order lifecycle (a state
  machine over nine statuses, with who may move an order where and who may
  cancel it), the saga engine that runs checkout, payment, confirmation and
  cancellation and rolls back on failure, the decisions of the checkout
  worker (duplicate messages, retries, dead-lettering), what the
  repositories select and write, the rules of the HTTP endpoints, the
  handling of bearer tokens and of the JWT secret, and the URLs and answers
  of the inventory and wallet services. Each public function has a
  contract; the laws that span several functions are public proof
  functions.
- `tests/` runs the library on concrete values.
- `app/` is the program around it: the axum server, the PostgreSQL
  repositories (sqlx, sea-query), the HTTP clients (reqwest), the RabbitMQ
  publisher and worker (lapin), token verification (jsonwebtoken), metrics,
  and the product and seller ratings, whose scores are fractional.
