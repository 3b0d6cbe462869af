# rusted_thunder

A desktop dashboard for a Tesla vehicle (GTK), split in two:

- `src/` — the verified library: what the dashboard shows for a snapshot of
  the vehicle's data (`dashboard`), decimal text (`text`), the vehicle model
  and the lookup of a vehicle by name (`vehicle`), the dashboard state with
  its wake-up protocol and button plans (`app`), the startup configuration
  (`config`) and the messages of the worker thread (`messages`).
- `app/` — the program: configuration file, Tesla API calls, GTK widgets and
  the loops that carry out the library's plans. It converts the API's
  miles and hours into the kilometres and minutes the library works with.

The configuration is read from `~/.teslac`:

```
[global]
api_token = "..."
default_vehicle = "CAR_NAME_GOES_HERE"
```

The window layout is loaded from `app_layout.glade` in the working directory.
