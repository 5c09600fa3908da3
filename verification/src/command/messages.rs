//! The texts that the bot sends.

use vstd::prelude::*;

verus! {

pub const TASK_TYPE: &'static str = "process_update";

pub const CRON_SECONDS: &'static str = "0 ";

pub const CRON_EVERY_DAY: &'static str = " * * * *";

pub const SPACE: &'static str = " ";

pub const BOT_NAME: &'static str = "@RustWeather77Bot";

pub const CMD_START: &'static str = "/start";

pub const CMD_FIND_CITY: &'static str = "/find_city";

pub const CMD_DEFAULT: &'static str = "/default";

pub const CMD_SET_DEFAULT_CITY: &'static str = "/set_default_city";

pub const CMD_CANCEL: &'static str = "/cancel";

pub const CMD_SCHEDULE: &'static str = "/schedule";

pub const GREETING_HEAD: &'static str = "Hi, ";

pub const GREETING_TAIL: &'static str = "!\n";

pub const CANCELED: &'static str = "Your operation was canceled";

pub const UNKNOWN_COMMAND: &'static str = "Unknown command. See /start for available commands";

pub const NOT_VALID_OFFSET: &'static str = "That's not a valid offset, it has to be a number in range [-11, 12].\n
            If your timezone is UTC + 2 put 2, if you have UTC - 10 put -10, 0 if you have UTC timezone.\n
            The command was cancelled";

pub const NOT_TIME: &'static str = "That's not a well formatted time, it has to be formatted with this format `hour:minutes` being hour a number in range [0,23] 
            and minutes a number in range [0,59]. The command was cancelled";

pub const NEEDS_DEFAULT_CITY: &'static str = "To use /schedule command default city must be set first.";

pub const ASK_OFFSET: &'static str = "Do you have any offset respect UTC ?\n 
            (0 if your timezone is the same as UTC, 2 if UTC + 2 , -2 if UTC - 2, [-11,12])";

pub const ASK_TIME: &'static str = "what time would you like to schedule ? (format hour:minutes in range 0-23:0-59)";

pub const NOT_FOUND_HEAD: &'static str = "Your city ";

pub const NOT_FOUND_TAIL: &'static str = " was not found. Command cancelled.";

pub const FOUND_CITIES: &'static str = "I found these cities. Put a number to select one\n\n";

pub const NOT_NUMBER: &'static str = "That's not a positive number in the range. The command was cancelled";

pub const CITY_UPDATED: &'static str = "Your default city was updated";

pub const ASK_CITY: &'static str = "Write a city, let me see if I can find it";

pub const START: &'static str = "This bot provides weather info around the globe.\nIn order to use it put the command:\n
        /find_city Ask weather info from any city worldwide.\n
        /set_default_city Set your default city.\n
        /default Provides weather info from default city.\n
        It would be really greatful if you take a look at my GitHub, look how much work I invested into this bot.\n
        If you like this bot, consider giving me a star on GitHub or if you would like to self run it, fork the project please.\n
        <a href=\"https://github.com/pxp9/weather_bot_rust\">RustWeatherBot GitHub repo</a>";

pub const SETTING_DEFAULT: &'static str = "Setting default city...";

pub const SCHEDULED_HEAD: &'static str = "Weather info scheduled every day at ";

pub const SCHEDULED_UTC: &'static str = " UTC ";

pub const FORECAST_HEAD: &'static str = "Here is your forecast !, this is your scheduled weather info.\n\n ";

pub const LAT: &'static str = "\nLat ";

pub const LON: &'static str = " , Lon ";

pub const NEWLINE: &'static str = "\n";

pub const COMMA: &'static str = ",";

pub const COLON: &'static str = ":";

pub const ZERO: &'static str = "0";

pub const DOT_SPACE: &'static str = ". ";

pub const WEATHER_LABEL: &'static str = "\n🌍🌍 Weather: ";

pub const MEAN_LABEL: &'static str = "\n🌡️🌡️ Mean Temperature: ";

pub const MINIMUM_LABEL: &'static str = " ºC\n🧊🧊 Minimum temperature: ";

pub const MAXIMUM_LABEL: &'static str = " ºC\n🔥🔥 Maximum temperature: ";

pub const PRESSURE_LABEL: &'static str = " ºC\n⛰️⛰️ Pressure: ";

pub const HUMIDITY_LABEL: &'static str = " hPa\n💧💧 Humidity: ";

pub const PERCENT: &'static str = " %";

} // verus!
