# orders_lib

The order and cart logic of an online shop's orders service, written in
Verus and proved against its contracts.

- `src/` is the verified library: the request route table and the reading
  of the caller (`routing`, `controller`), access rules (`acl`), the cart
  entries and their statements (`cart`, `cart_repo`, `product`), the steps
  of each cart operation (`cart_service`) and what the storage makes of
  them (`cart_model`), orders, their history and the decisions of the order
  operations (`order`, `order_service`), the steps of the order
  operations that span the cart, the orders and their histories
  (`order_plan`) and what the storage makes of them (`order_model`), the background jobs' decisions
  (`loaders`, `ups`) and the shared helpers (`text`, `types`, `util`,
  `sql`, `errors`, `config`).
- `tests/` runs the library on concrete values.
- `app/` is a command line around the library: it loads the service
  settings, reads JSON and CSV, and works out money amounts, which the
  library does not hold.
