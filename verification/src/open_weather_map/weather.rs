//! What the weather service and the city catalogue hand to the bot.
//!
//! Measured quantities that are not whole numbers are carried as the text in
//! which they are shown; nothing here computes with them.

use vstd::prelude::*;
use vstd::string::*;

verus! {

/// A position on the globe, each coordinate as its decimal text.
#[derive(Debug, PartialEq, Eq)]
pub struct Coord {
    pub lon: String,
    pub lat: String,
}

pub struct CoordView {
    pub lon: Seq<char>,
    pub lat: Seq<char>,
}

impl View for Coord {
    type V = CoordView;

    open spec fn view(&self) -> CoordView {
        CoordView { lon: self.lon@, lat: self.lat@ }
    }
}

impl Clone for Coord {
    fn clone(&self) -> (r: Self)
        ensures
            r == *self,
    {
        Coord { lon: self.lon.clone(), lat: self.lat.clone() }
    }
}

/// A city of the catalogue. `state` is the region inside the country and may
/// be empty.
#[derive(Debug, PartialEq, Eq)]
pub struct City {
    pub id: i32,
    pub name: String,
    pub state: String,
    pub country: String,
    pub coord: Coord,
}

pub struct CityView {
    pub id: i32,
    pub name: Seq<char>,
    pub state: Seq<char>,
    pub country: Seq<char>,
    pub coord: CoordView,
}

impl View for City {
    type V = CityView;

    open spec fn view(&self) -> CityView {
        CityView {
            id: self.id,
            name: self.name@,
            state: self.state@,
            country: self.country@,
            coord: self.coord@,
        }
    }
}

impl Clone for City {
    fn clone(&self) -> (r: Self)
        ensures
            r == *self,
    {
        City {
            id: self.id,
            name: self.name.clone(),
            state: self.state.clone(),
            country: self.country.clone(),
            coord: self.coord.clone(),
        }
    }
}

/// A city as the catalogue's source lists it, before it has an id.
#[derive(Debug, PartialEq, Eq)]
pub struct CityDeserialize {
    pub name: String,
    pub state: String,
    pub country: String,
    pub coord: Coord,
}

#[derive(Debug, PartialEq, Eq)]
pub struct WeatherInfo {
    pub id: u32,
    pub main: String,
    pub description: String,
    pub icon: String,
}

impl Clone for WeatherInfo {
    fn clone(&self) -> (r: Self)
        ensures
            r == *self,
    {
        WeatherInfo {
            id: self.id,
            main: self.main.clone(),
            description: self.description.clone(),
            icon: self.icon.clone(),
        }
    }
}

/// Temperatures in degrees Celsius as text, pressure in hPa, humidity in percent.
#[derive(Debug, PartialEq, Eq)]
pub struct Main {
    pub temp: String,
    pub feels_like: String,
    pub temp_min: String,
    pub temp_max: String,
    pub pressure: u32,
    pub humidity: u32,
}

#[derive(Debug, PartialEq, Eq)]
pub struct Wind {
    pub speed: String,
    pub deg: u32,
}

#[derive(Debug, Clone, Copy, PartialEq, Eq)]
pub struct Clouds {
    pub all: u32,
}

#[derive(Debug, PartialEq, Eq)]
pub struct Sys {
    pub sys_type: u32,
    pub message: i64,
    pub country: String,
    pub sunrise: u32,
    pub sunset: u32,
}

impl Clone for Sys {
    fn clone(&self) -> (r: Self)
        ensures
            r == *self,
    {
        Sys {
            sys_type: self.sys_type,
            message: self.message,
            country: self.country.clone(),
            sunrise: self.sunrise,
            sunset: self.sunset,
        }
    }
}

/// One reading of the current weather at a place.
#[derive(Debug, PartialEq, Eq)]
pub struct Weather {
    pub coord: Coord,
    pub weather: Vec<WeatherInfo>,
    pub base: String,
    pub main: Main,
    pub visibility: u32,
    pub wind: Wind,
    pub clouds: Clouds,
    pub dt: u32,
    pub timezone: i64,
    pub id: u32,
    pub name: String,
    pub cod: u32,
}

/// What of a reading is shown to the user.
pub struct WeatherView {
    pub description: Option<Seq<char>>,
    pub temp: Seq<char>,
    pub temp_min: Seq<char>,
    pub temp_max: Seq<char>,
    pub pressure: u32,
    pub humidity: u32,
}

impl View for Weather {
    type V = WeatherView;

    open spec fn view(&self) -> WeatherView {
        WeatherView {
            description: if self.weather@.len() > 0 {
                Some(self.weather@[0].description@)
            } else {
                None
            },
            temp: self.main.temp@,
            temp_min: self.main.temp_min@,
            temp_max: self.main.temp_max@,
            pressure: self.main.pressure,
            humidity: self.main.humidity,
        }
    }
}

} // verus!
