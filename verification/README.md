# weectrl

A library for finding and controlling Belkin WeMo switches and sockets, and
compatible devices, verified with Verus.

- `src/` is the verified library: the device registry and the controller's
  decisions on it (`registry`), the steps of the daemon that renews a
  subscription (`resubscribe`), the steps of each exchange with a device,
  what is kept of a discovered device and how its icon list is built
  (`device`), the HTTP requests and what is made of the answers (`rpc`), the
  SSDP search message and answer parser (`discovery`), device locations read
  with the `url` crate (`location`), the device description and SOAP messages
  (`xml`), the public data types (`weectrl`, `cache`, `error`) and the text
  utilities they rest on (`text`).
- `app/` is the `WeeController` around it: it runs the loops and moves the
  bytes, and takes each decision from the library. It holds the threads,
  sockets, timers, the HTTP transport (reqwest), the notification server
  (hyper), the XML and JSON readers (serde) and the disk cache file.
- `tests/` runs the library on concrete values.
